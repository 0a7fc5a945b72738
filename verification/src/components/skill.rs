//! Skills as plain data, and the hot-bar of equipped skills.
use vstd::prelude::*;
use crate::gamecore::types::Element;

verus! {

/// What defines a skill: its id, display name, element, base power, MP
/// cost, and cooldown in tenths of a second. The running cooldown timer is
/// kept by the application's combat layer.
#[derive(Debug, Clone)]
pub struct SkillBlueprint {
    pub id: String,
    pub name: String,
    pub element: Element,
    pub power: u32,
    pub mp_cost: u32,
    pub cooldown_tenths: u32,
}

impl SkillBlueprint {
    /// A skill with the given id, name, element, power, MP cost and cooldown
    /// (in tenths of a second).
    pub fn new(id: &str, name: &str, element: Element, power: u32, mp_cost: u32, cooldown_tenths: u32) -> (r: Self)
        ensures
            r.id@ == id@,
            r.name@ == name@,
            r.element == element,
            r.power == power,
            r.mp_cost == mp_cost,
            r.cooldown_tenths == cooldown_tenths,
    {
        Self { id: id.to_string(), name: name.to_string(), element, power, mp_cost, cooldown_tenths }
    }
}

/// The skills of a bar holding `skills` with room for `max` after `s` is
/// added: appended when there is room, refused otherwise.
pub open spec fn skill_added<S>(skills: Seq<S>, max: usize, s: S) -> Seq<S> {
    if skills.len() >= max { skills } else { skills.push(s) }
}

/// A bounded hot-bar of skills (of type `S`) a character has equipped.
#[derive(Debug, Clone)]
pub struct SkillSet<S> {
    pub skills: Vec<S>,
    pub max_skills: usize,
}

impl<S> SkillSet<S> {
    /// An empty hot-bar with room for `max_skills` skills.
    pub fn new(max_skills: usize) -> (r: Self)
        ensures
            r.skills@.len() == 0,
            r.max_skills == max_skills,
    {
        Self { skills: Vec::new(), max_skills }
    }

    /// Equip `skill` after the others, unless the bar already holds
    /// `max_skills` skills, in which case it is refused with "Skill set is
    /// full" and nothing changes.
    pub fn add_skill(&mut self, skill: S) -> (r: Result<(), &str>)
        ensures
            final(self).skills@ == skill_added(old(self).skills@, old(self).max_skills, skill),
            r == (if old(self).skills@.len() >= old(self).max_skills {
                Err::<(), &str>("Skill set is full")
            } else {
                Ok::<(), &str>(())
            }),
            final(self).max_skills == old(self).max_skills,
    {
        if self.skills.len() >= self.max_skills {
            Err("Skill set is full")
        } else {
            self.skills.push(skill);
            Ok(())
        }
    }
}

/// A bar within its capacity stays within it, whatever is added, and an
/// added skill is never lost from a bar with room.
pub proof fn law_skill_set_stays_bounded<S>(skills: Seq<S>, max: usize, s: S)
    requires
        skills.len() <= max,
    ensures
        skill_added(skills, max, s).len() <= max,
        skills.len() < max ==> skill_added(skills, max, s).last() == s,
{
}

} // verus!
