//! Enemy kinds.
use vstd::prelude::*;

verus! {

/// The kinds of enemy that populate fields and dungeons.
#[derive(Debug, Clone, Copy, PartialEq, Eq, Structural)]
pub enum EnemyType {
    Goblin,
    Wolf,
    Skeleton,
    Mage,
    Boss,
}

} // verus!
