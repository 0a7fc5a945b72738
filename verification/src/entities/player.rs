//! Player factory.
use vstd::prelude::*;
use crate::components::skill::{SkillBlueprint, SkillSet};
use crate::game::progression::{tree_skill_ids, tree_skill_names, tree_skill_numbers};
use crate::gamecore::types::{Class, Element};

verus! {

/// Factory for the player character; the component bundle it builds
/// carries positions and timers and is assembled by the application.
pub struct PlayerEntity;

/// `b` is the skill granted by tier `k` of the skill tree of `class`.
pub open spec fn is_tree_skill(b: SkillBlueprint, class: Class, k: int) -> bool {
    &&& b.id@ == tree_skill_ids(class)[k]
    &&& b.name@ == tree_skill_names(class)[k]
    &&& (b.element, b.power, b.mp_cost, b.cooldown_tenths) == tree_skill_numbers(class)[k]
}

impl PlayerEntity {
    /// The starting hot-bar of `class`: room for six skills, holding the
    /// skills of the first three tiers of its skill tree, in order.
    pub fn create_skill_set(class: Class) -> (r: SkillSet<SkillBlueprint>)
        ensures
            r.max_skills == 6,
            r.skills@.len() == 3,
            forall|k: int| 0 <= k < 3 ==> #[trigger] is_tree_skill(r.skills@[k], class, k),
    {
        let mut set: SkillSet<SkillBlueprint> = SkillSet::new(6);
        let (a, b, c) = match class {
            Class::TwinBlade => (
                SkillBlueprint::new("twin_slash", "Twin Slash", Element::Null, 20, 5, 10),
                SkillBlueprint::new("wind_slash", "Wind Slash", Element::Wind, 35, 10, 30),
                SkillBlueprint::new("swift_blade", "Swift Blade", Element::Null, 15, 3, 5),
            ),
            Class::HeavyBlade => (
                SkillBlueprint::new("heavy_strike", "Heavy Strike", Element::Null, 40, 10, 20),
                SkillBlueprint::new("earth_crush", "Earth Crush", Element::Earth, 55, 15, 40),
                SkillBlueprint::new("defense_up", "Defense Up", Element::Null, 0, 8, 50),
            ),
            Class::LongArm => (
                SkillBlueprint::new("spiral_stab", "Spiral Stab", Element::Null, 25, 6, 15),
                SkillBlueprint::new("flame_lance", "Flame Lance", Element::Fire, 45, 12, 35),
                SkillBlueprint::new("ice_spear", "Ice Spear", Element::Water, 40, 12, 35),
            ),
            Class::Wavemaster => (
                SkillBlueprint::new("fireball", "Fireball", Element::Fire, 50, 15, 30),
                SkillBlueprint::new("heal", "Heal", Element::Light, 0, 20, 40),
                SkillBlueprint::new("thunder_bolt", "Thunder Bolt", Element::Wind, 60, 18, 45),
            ),
        };
        assert(is_tree_skill(a, class, 0));
        assert(is_tree_skill(b, class, 1));
        assert(is_tree_skill(c, class, 2));
        let _ = set.add_skill(a);
        let _ = set.add_skill(b);
        let _ = set.add_skill(c);
        set
    }
}

} // verus!
