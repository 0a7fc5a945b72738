//! Combat statistics and experience-driven levelling.
use vstd::prelude::*;
use crate::gamecore::types::Class;

verus! {

/// Combat statistics for a character (player or enemy).
///
/// Each [`Class`] has its own starting profile. Stats grow on level-up.
#[derive(Debug, Clone)]
pub struct Stats {
    pub level: u32,
    pub hp: u32,
    pub max_hp: u32,
    pub mp: u32,
    pub max_mp: u32,
    pub attack: u32,
    pub defense: u32,
    pub magic_attack: u32,
    pub magic_defense: u32,
    pub agility: u32,
    pub class: Class,
    pub experience: u64,
    pub next_level_exp: u64,
}

/// The level-1 profile of `class`:
/// `(hp, mp, attack, defense, magic_attack, magic_defense, agility)`.
pub open spec fn class_profile(class: Class) -> (u32, u32, u32, u32, u32, u32, u32) {
    match class {
        Class::TwinBlade => (100, 30, 15, 8, 5, 6, 20),
        Class::HeavyBlade => (150, 20, 20, 15, 3, 10, 8),
        Class::LongArm => (90, 40, 12, 6, 12, 8, 15),
        Class::Wavemaster => (70, 80, 5, 4, 20, 15, 12),
    }
}

/// Whether a character at `level`, needing `next` experience for the next
/// level and holding `exp` experience, levels up once more. A threshold of 0
/// is reached at once (the level-up spends nothing); thresholds below 0 and
/// levels below 0 do not occur for real characters and never level up.
pub open spec fn levels_up(level: int, next: int, exp: int) -> bool {
    &&& exp >= next
    &&& next >= 0
    &&& level >= 0
}

/// How many level-ups a character at `level`, needing `next` experience for
/// the next level and holding `exp` experience, goes through: each one spends
/// `next` experience and sets the next threshold to `100 * (new level)`.
pub open spec fn level_ups(level: int, next: int, exp: int) -> nat
    decreases (if exp > 0 { exp } else { 0 }), (if next > 0 { 0int } else { 1int }),
{
    if !levels_up(level, next, exp) {
        0
    } else {
        1 + level_ups(level + 1, (level + 1) * 100, exp - next)
    }
}

/// The experience left over after the level-ups counted by [`level_ups`].
pub open spec fn exp_left(level: int, next: int, exp: int) -> int
    decreases (if exp > 0 { exp } else { 0 }), (if next > 0 { 0int } else { 1int }),
{
    if !levels_up(level, next, exp) {
        exp
    } else {
        exp_left(level + 1, (level + 1) * 100, exp - next)
    }
}

impl Stats {
    /// `t` is `self` after `k` level-ups that leave `exp` experience:
    /// level +k, max HP +10k, max MP +5k, attack +2k, defence +k; HP and MP
    /// are refilled and the next threshold is `100 * level` when `k > 0`;
    /// everything else is unchanged.
    pub open spec fn leveled_to(self, t: Stats, k: nat, exp: int) -> bool {
        &&& t.level == self.level + k
        &&& t.max_hp == self.max_hp + 10 * k
        &&& t.max_mp == self.max_mp + 5 * k
        &&& t.attack == self.attack + 2 * k
        &&& t.defense == self.defense + k
        &&& t.hp == (if k == 0 { self.hp as int } else { t.max_hp as int })
        &&& t.mp == (if k == 0 { self.mp as int } else { t.max_mp as int })
        &&& t.next_level_exp == (if k == 0 { self.next_level_exp as int } else { t.level * 100 })
        &&& t.experience == exp
        &&& t.magic_attack == self.magic_attack
        &&& t.magic_defense == self.magic_defense
        &&& t.agility == self.agility
        &&& t.class == self.class
    }

    /// `k` more level-ups keep every growing stat within `u32`.
    pub open spec fn growth_fits(self, k: nat) -> bool {
        &&& self.level + k <= u32::MAX
        &&& self.max_hp + 10 * k <= u32::MAX
        &&& self.max_mp + 5 * k <= u32::MAX
        &&& self.attack + 2 * k <= u32::MAX
        &&& self.defense + k <= u32::MAX
    }

    /// Create stats for `class` at level 1 with its starting profile,
    /// full HP and MP, no experience and a first threshold of 100.
    pub fn new(class: Class) -> (r: Self)
        ensures
            r.class == class,
            r.level == 1,
            r.experience == 0,
            r.next_level_exp == 100,
            (r.hp, r.mp, r.attack, r.defense, r.magic_attack, r.magic_defense, r.agility)
                == class_profile(class),
            r.max_hp == r.hp,
            r.max_mp == r.mp,
    {
        match class {
            Class::TwinBlade => Self {
                level: 1, hp: 100, max_hp: 100, mp: 30, max_mp: 30,
                attack: 15, defense: 8, magic_attack: 5, magic_defense: 6,
                agility: 20, class, experience: 0, next_level_exp: 100,
            },
            Class::HeavyBlade => Self {
                level: 1, hp: 150, max_hp: 150, mp: 20, max_mp: 20,
                attack: 20, defense: 15, magic_attack: 3, magic_defense: 10,
                agility: 8, class, experience: 0, next_level_exp: 100,
            },
            Class::LongArm => Self {
                level: 1, hp: 90, max_hp: 90, mp: 40, max_mp: 40,
                attack: 12, defense: 6, magic_attack: 12, magic_defense: 8,
                agility: 15, class, experience: 0, next_level_exp: 100,
            },
            Class::Wavemaster => Self {
                level: 1, hp: 70, max_hp: 70, mp: 80, max_mp: 80,
                attack: 5, defense: 4, magic_attack: 20, magic_defense: 15,
                agility: 12, class, experience: 0, next_level_exp: 100,
            },
        }
    }

    /// Reduce HP by `damage`, stopping at 0; nothing else changes.
    pub fn take_damage(&mut self, damage: u32)
        ensures
            final(self).hp == (if old(self).hp >= damage { old(self).hp - damage } else { 0 }),
            *final(self) == (Stats { hp: final(self).hp, ..*old(self) }),
    {
        self.hp = self.hp.saturating_sub(damage);
    }

    /// Restore HP by `amount`, capped at `max_hp`; nothing else changes.
    pub fn heal(&mut self, amount: u32)
        requires
            old(self).hp + amount <= u32::MAX,
        ensures
            final(self).hp == (if old(self).hp + amount <= old(self).max_hp {
                old(self).hp + amount
            } else {
                old(self).max_hp as int
            }),
            *final(self) == (Stats { hp: final(self).hp, ..*old(self) }),
    {
        let raised = self.hp + amount;
        self.hp = if raised <= self.max_hp { raised } else { self.max_hp };
    }

    /// The character is alive exactly when its HP is above 0.
    pub fn is_alive(&self) -> (r: bool)
        ensures
            r == (self.hp > 0),
    {
        self.hp > 0
    }

    /// Add experience, then level up as long as the experience reaches the
    /// current threshold.
    ///
    /// The character goes through exactly [`level_ups`] level-ups and keeps
    /// the experience [`exp_left`] says; afterwards the experience is below
    /// the threshold. A threshold of 0 is reached at once: that first
    /// level-up spends no experience, and the next threshold is
    /// `100 * level` as after any level-up.
    pub fn add_experience(&mut self, exp: u64)
        requires
            old(self).experience + exp <= u64::MAX,
            old(self).growth_fits(
                level_ups(old(self).level as int, old(self).next_level_exp as int, old(self).experience + exp),
            ),
        ensures
            old(self).leveled_to(
                *final(self),
                level_ups(old(self).level as int, old(self).next_level_exp as int, old(self).experience + exp),
                exp_left(old(self).level as int, old(self).next_level_exp as int, old(self).experience + exp),
            ),
            final(self).experience < final(self).next_level_exp,
    {
        let ghost start = *old(self);
        let ghost total = level_ups(start.level as int, start.next_level_exp as int, start.experience + exp);
        let ghost rest = exp_left(start.level as int, start.next_level_exp as int, start.experience + exp);
        self.experience = self.experience + exp;
        let ghost mut done: nat = 0;
        while self.experience >= self.next_level_exp
            invariant
                done + level_ups(self.level as int, self.next_level_exp as int, self.experience as int) == total,
                exp_left(self.level as int, self.next_level_exp as int, self.experience as int) == rest,
                start.leveled_to(*self, done, self.experience as int),
                start.growth_fits(total),
            decreases self.experience, (if self.next_level_exp > 0 { 0int } else { 1int }),
        {
            self.level_up();
            proof {
                done = done + 1;
            }
        }
    }

    /// Apply one level-up: spend `next_level_exp` experience, gain a level,
    /// max HP +10 and max MP +5 (both refilled), attack +2, defence +1, and
    /// set the next threshold to `100 * level`.
    pub fn level_up(&mut self)
        requires
            old(self).experience >= old(self).next_level_exp,
            old(self).growth_fits(1),
        ensures
            old(self).leveled_to(*final(self), 1, old(self).experience - old(self).next_level_exp),
    {
        self.experience = self.experience - self.next_level_exp;
        self.level = self.level + 1;
        self.max_hp = self.max_hp + 10;
        self.hp = self.max_hp;
        self.max_mp = self.max_mp + 5;
        self.mp = self.max_mp;
        self.attack = self.attack + 2;
        self.defense = self.defense + 1;
        self.next_level_exp = self.level as u64 * 100;
    }
}

} // verus!
