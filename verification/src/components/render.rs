//! Draw layers.
use vstd::prelude::*;

verus! {

/// Draw layers, from the back (`Background`) to the front (`Overlay`).
#[derive(Debug, Clone, Copy, PartialEq, Eq, PartialOrd, Ord, Structural)]
pub enum RenderLayer {
    Background,
    Floor,
    Items,
    Characters,
    Effects,
    UI,
    Overlay,
}

} // verus!
