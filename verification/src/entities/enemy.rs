//! Enemy stat tables and drop tables.
use vstd::prelude::*;
use crate::components::enemy::EnemyType;
use crate::components::inventory::{Item, ItemType};
use crate::components::stats::Stats;
use crate::gamecore::types::Class;

verus! {

/// Factory for enemies.
pub struct EnemyEntity;

/// The stats an enemy of kind `t` starts with: a level-1 HeavyBlade profile
/// with the kind's own HP, offence, defence, agility, level and experience.
pub open spec fn enemy_stats(t: EnemyType) -> Stats {
    let base = Stats {
        level: 1, hp: 150, max_hp: 150, mp: 20, max_mp: 20,
        attack: 20, defense: 15, magic_attack: 3, magic_defense: 10,
        agility: 8, class: Class::HeavyBlade, experience: 0, next_level_exp: 100,
    };
    match t {
        EnemyType::Goblin => Stats { hp: 30, max_hp: 30, attack: 8, defense: 4, experience: 15, ..base },
        EnemyType::Wolf => Stats { hp: 25, max_hp: 25, attack: 12, defense: 3, agility: 25, experience: 20, ..base },
        EnemyType::Skeleton => Stats { hp: 45, max_hp: 45, attack: 10, defense: 8, experience: 30, ..base },
        EnemyType::Mage => Stats { hp: 20, max_hp: 20, magic_attack: 18, magic_defense: 10, experience: 35, ..base },
        EnemyType::Boss => Stats {
            hp: 500, max_hp: 500, attack: 30, defense: 20, magic_attack: 25, magic_defense: 20,
            level: 10, experience: 500, ..base
        },
    }
}

/// The items an enemy of kind `t` drops, each as
/// (id, name, quantity, stack limit, kind).
pub open spec fn drop_table(t: EnemyType) -> Seq<(Seq<char>, Seq<char>, u32, u32, ItemType)> {
    match t {
        EnemyType::Goblin => seq![("goblin_ear"@, "Goblin Ear"@, 1u32, 99u32, ItemType::Material)],
        EnemyType::Wolf => seq![("wolf_fang"@, "Wolf Fang"@, 1u32, 99u32, ItemType::Material)],
        EnemyType::Skeleton => seq![("bone_fragment"@, "Bone Fragment"@, 1u32, 99u32, ItemType::Material)],
        EnemyType::Mage => seq![("magic_crystal"@, "Magic Crystal"@, 1u32, 99u32, ItemType::Material)],
        EnemyType::Boss => seq![
            ("boss_core"@, "Boss Core"@, 1u32, 1u32, ItemType::KeyItem),
            ("rare_weapon"@, "Rare Weapon"@, 1u32, 1u32, ItemType::Weapon),
        ],
    }
}

/// A single-item stack with the given id, name, stack limit and kind.
fn drop_item(id: &str, name: &str, max_stack: u32, item_type: ItemType) -> (r: Item)
    ensures
        r.record() == (id@, name@, 1u32, max_stack, item_type),
{
    Item { id: id.to_string(), name: name.to_string(), quantity: 1, max_stack, item_type }
}

impl EnemyEntity {
    /// The stats an enemy of kind `enemy_type` starts with.
    pub fn create_stats(enemy_type: EnemyType) -> (r: Stats)
        ensures
            r == enemy_stats(enemy_type),
    {
        let mut stats = Stats::new(Class::HeavyBlade);
        match enemy_type {
            EnemyType::Goblin => {
                stats.hp = 30; stats.max_hp = 30;
                stats.attack = 8; stats.defense = 4;
                stats.experience = 15;
            }
            EnemyType::Wolf => {
                stats.hp = 25; stats.max_hp = 25;
                stats.attack = 12; stats.defense = 3;
                stats.agility = 25;
                stats.experience = 20;
            }
            EnemyType::Skeleton => {
                stats.hp = 45; stats.max_hp = 45;
                stats.attack = 10; stats.defense = 8;
                stats.experience = 30;
            }
            EnemyType::Mage => {
                stats.hp = 20; stats.max_hp = 20;
                stats.magic_attack = 18; stats.magic_defense = 10;
                stats.experience = 35;
            }
            EnemyType::Boss => {
                stats.hp = 500; stats.max_hp = 500;
                stats.attack = 30; stats.defense = 20;
                stats.magic_attack = 25; stats.magic_defense = 20;
                stats.level = 10;
                stats.experience = 500;
            }
        }
        stats
    }

    /// The items an enemy of kind `enemy_type` drops, in table order.
    pub fn get_drop_table(enemy_type: EnemyType) -> (r: Vec<Item>)
        ensures
            r@.len() == drop_table(enemy_type).len(),
            forall|i: int| 0 <= i < r@.len() ==> #[trigger] r@[i].record() == drop_table(enemy_type)[i],
    {
        match enemy_type {
            EnemyType::Goblin => vec![drop_item("goblin_ear", "Goblin Ear", 99, ItemType::Material)],
            EnemyType::Wolf => vec![drop_item("wolf_fang", "Wolf Fang", 99, ItemType::Material)],
            EnemyType::Skeleton => vec![drop_item("bone_fragment", "Bone Fragment", 99, ItemType::Material)],
            EnemyType::Mage => vec![drop_item("magic_crystal", "Magic Crystal", 99, ItemType::Material)],
            EnemyType::Boss => vec![
                drop_item("boss_core", "Boss Core", 1, ItemType::KeyItem),
                drop_item("rare_weapon", "Rare Weapon", 1, ItemType::Weapon),
            ],
        }
    }
}

/// Every enemy drops something.
pub proof fn law_every_enemy_drops(t: EnemyType)
    ensures
        drop_table(t).len() >= 1,
{
}

} // verus!
