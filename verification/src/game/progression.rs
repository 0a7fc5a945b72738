//! Stat gains shown on level-up, and the skill trees whose nodes are
//! unlocked with skill points.
use vstd::prelude::*;
use crate::components::skill::SkillBlueprint;
use crate::components::stats::{level_ups, Stats};
use crate::game::event::{emitted, EventBus, GameEvent};
use crate::gamecore::types::{Class, Element};
use crate::text::{first_index_of, lemma_first_index_absent, lemma_first_index_found, str_eq, string_views};

verus! {

/// The stat gains of one level-up, as shown on the level-up screen.
#[derive(Debug, Clone)]
pub struct StatIncreases {
    pub max_hp: u32,
    pub max_mp: u32,
    pub attack: u32,
    pub defense: u32,
    pub magic_attack: u32,
    pub magic_defense: u32,
    pub agility: u32,
}

impl StatIncreases {
    /// The standard gains: HP +10, MP +5, attack +2, defence +1, magic
    /// attack +2, magic defence +1, agility +1.
    pub fn new() -> (r: Self)
        ensures
            r.max_hp == 10,
            r.max_mp == 5,
            r.attack == 2,
            r.defense == 1,
            r.magic_attack == 2,
            r.magic_defense == 1,
            r.agility == 1,
    {
        Self { max_hp: 10, max_mp: 5, attack: 2, defense: 1, magic_attack: 2, magic_defense: 1, agility: 1 }
    }

    /// The sum of all gains.
    pub fn total_stats_gained(&self) -> (r: u32)
        requires
            self.max_hp + self.max_mp + self.attack + self.defense + self.magic_attack + self.magic_defense
                + self.agility <= u32::MAX,
        ensures
            r == self.max_hp + self.max_mp + self.attack + self.defense + self.magic_attack + self.magic_defense
                + self.agility,
    {
        self.max_hp + self.max_mp + self.attack + self.defense + self.magic_attack + self.magic_defense + self.agility
    }
}

impl Default for StatIncreases {
    fn default() -> (r: Self)
        ensures
            r.max_hp == 10,
            r.max_mp == 5,
            r.attack == 2,
            r.defense == 1,
            r.magic_attack == 2,
            r.magic_defense == 1,
            r.agility == 1,
    {
        Self::new()
    }
}

/// The standard gains of one level-up, as [`StatIncreases::new`] gives them.
pub open spec fn standard_increases() -> StatIncreases {
    StatIncreases { max_hp: 10, max_mp: 5, attack: 2, defense: 1, magic_attack: 2, magic_defense: 1, agility: 1 }
}

/// The level-up screen: the level before and after, the stat gains, the
/// skills (of type `S`) that became available, and whether the player has
/// confirmed it. Its reveal animation is timed by the application.
#[derive(Debug, Clone)]
pub struct LevelUpScreen<S> {
    pub is_active: bool,
    pub previous_level: u32,
    pub new_level: u32,
    pub stat_increases: StatIncreases,
    pub new_skills_unlocked: Vec<S>,
    pub confirmed: bool,
}

impl<S> LevelUpScreen<S> {
    /// The screen for a character who has just reached `stats.level`:
    /// active, unconfirmed, standard gains, no skills listed yet.
    pub fn new(stats: &Stats) -> (r: Self)
        requires
            stats.level >= 1,
        ensures
            r.is_active,
            !r.confirmed,
            r.previous_level == stats.level - 1,
            r.new_level == stats.level,
            r.stat_increases == standard_increases(),
            r.new_skills_unlocked@.len() == 0,
    {
        Self {
            is_active: true,
            previous_level: stats.level - 1,
            new_level: stats.level,
            stat_increases: StatIncreases::new(),
            new_skills_unlocked: Vec::new(),
            confirmed: false,
        }
    }

    /// The player acknowledges the screen: it is confirmed and closes.
    pub fn confirm(&mut self)
        ensures
            final(self).confirmed,
            !final(self).is_active,
            final(self).previous_level == old(self).previous_level,
            final(self).new_level == old(self).new_level,
            final(self).stat_increases == old(self).stat_increases,
            final(self).new_skills_unlocked@ == old(self).new_skills_unlocked@,
    {
        self.confirmed = true;
        self.is_active = false;
    }

    /// One row per stat: its label, the gain of this level-up, and the
    /// standard gain.
    pub fn get_display_stats(&self) -> (r: Vec<(&'static str, u32, u32)>)
        ensures
            r@ == seq![
                ("Max HP", self.stat_increases.max_hp, 10u32),
                ("Max MP", self.stat_increases.max_mp, 5u32),
                ("Attack", self.stat_increases.attack, 2u32),
                ("Defense", self.stat_increases.defense, 1u32),
                ("Magic Attack", self.stat_increases.magic_attack, 2u32),
                ("Magic Defense", self.stat_increases.magic_defense, 1u32),
                ("Agility", self.stat_increases.agility, 1u32),
            ],
    {
        let mut rows: Vec<(&'static str, u32, u32)> = Vec::new();
        rows.push(("Max HP", self.stat_increases.max_hp, 10));
        rows.push(("Max MP", self.stat_increases.max_mp, 5));
        rows.push(("Attack", self.stat_increases.attack, 2));
        rows.push(("Defense", self.stat_increases.defense, 1));
        rows.push(("Magic Attack", self.stat_increases.magic_attack, 2));
        rows.push(("Magic Defense", self.stat_increases.magic_defense, 1));
        rows.push(("Agility", self.stat_increases.agility, 1));
        rows
    }
}

/// Level-up bookkeeping: skill points, the level-up screen and its event.
pub struct ProgressionSystem;

/// A node of a skill tree: the skill it grants (of type `S`), the level it
/// is meant for, the nodes that must be unlocked first, whether it is
/// unlocked, and its place on the tree diagram (in coordinates of type `P`).
#[derive(Debug, Clone)]
pub struct SkillTreeNode<S, P> {
    pub id: String,
    pub name: String,
    pub description: String,
    pub skill: S,
    pub required_level: u32,
    pub required_nodes: Vec<String>,
    pub unlocked: bool,
    pub position_x: P,
    pub position_y: P,
}

/// The skill tree of a class and the skill points left to spend on it.
pub struct SkillTree<S, P> {
    pub nodes: Vec<SkillTreeNode<S, P>>,
    pub available_points: u32,
    pub class: Class,
}

/// The ids of `nodes`, in order.
pub open spec fn node_ids<S, P>(nodes: Seq<SkillTreeNode<S, P>>) -> Seq<Seq<char>> {
    nodes.map_values(|n: SkillTreeNode<S, P>| n.id@)
}

/// Some unlocked node of `nodes` has id `id`.
pub open spec fn unlocked_in<S, P>(nodes: Seq<SkillTreeNode<S, P>>, id: Seq<char>) -> bool {
    exists|j: int| 0 <= j < nodes.len() && #[trigger] nodes[j].id@ == id && nodes[j].unlocked
}

/// Every node that `node` requires is unlocked in `nodes`.
pub open spec fn requirements_met<S, P>(nodes: Seq<SkillTreeNode<S, P>>, node: SkillTreeNode<S, P>) -> bool {
    forall|k: int| 0 <= k < node.required_nodes@.len() ==> unlocked_in(nodes, #[trigger] node.required_nodes@[k]@)
}

/// Why unlocking `id` is refused, if it is: no points left, no such node,
/// already unlocked, or a required node still locked (checked in that order).
pub open spec fn unlock_refusal<S, P>(nodes: Seq<SkillTreeNode<S, P>>, points: u32, id: Seq<char>) -> Option<&'static str> {
    if points == 0 {
        Some("No skill points available")
    } else {
        match first_index_of(node_ids(nodes), id) {
            None => Some("Skill not found"),
            Some(i) => if nodes[i].unlocked {
                Some("Skill already unlocked")
            } else if !requirements_met(nodes, nodes[i]) {
                Some("Required skills not unlocked")
            } else {
                None
            },
        }
    }
}

/// Some unlocked node has id `req`.
fn requirement_unlocked<S, P>(nodes: &Vec<SkillTreeNode<S, P>>, req: &String) -> (r: bool)
    ensures
        r == unlocked_in(nodes@, req@),
{
    let mut j: usize = 0;
    while j < nodes.len()
        invariant
            j <= nodes@.len(),
            forall|m: int| 0 <= m < j ==> !(#[trigger] nodes@[m].id@ == req@ && nodes@[m].unlocked),
        decreases nodes@.len() - j,
    {
        if nodes[j].unlocked && nodes[j].id == *req {
            return true;
        }
        j += 1;
    }
    false
}

/// Every node required by node `i` is unlocked.
fn requirements_unlocked<S, P>(nodes: &Vec<SkillTreeNode<S, P>>, i: usize) -> (r: bool)
    requires
        i < nodes@.len(),
    ensures
        r == requirements_met(nodes@, nodes@[i as int]),
{
    let reqs = &nodes[i].required_nodes;
    let mut k: usize = 0;
    while k < reqs.len()
        invariant
            i < nodes@.len(),
            reqs@ == nodes@[i as int].required_nodes@,
            k <= reqs@.len(),
            forall|m: int| 0 <= m < k ==> unlocked_in(nodes@, #[trigger] reqs@[m]@),
        decreases reqs@.len() - k,
    {
        if !requirement_unlocked(nodes, &reqs[k]) {
            return false;
        }
        k += 1;
    }
    true
}

impl<S, P> SkillTree<S, P> {
    fn find(&self, node_id: &str) -> (r: Option<usize>)
        ensures
            match r {
                Some(i) => first_index_of(node_ids(self.nodes@), node_id@) == Some(i as int) && i < self.nodes@.len(),
                None => first_index_of(node_ids(self.nodes@), node_id@) is None,
            },
    {
        let mut i: usize = 0;
        while i < self.nodes.len()
            invariant
                i <= self.nodes@.len(),
                forall|j: int| 0 <= j < i ==> node_ids(self.nodes@)[j] != node_id@,
            decreases self.nodes@.len() - i,
        {
            if str_eq(self.nodes[i].id.as_str(), node_id) {
                proof {
                    lemma_first_index_found(node_ids(self.nodes@), node_id@, i as int);
                }
                return Some(i);
            }
            i += 1;
        }
        proof {
            lemma_first_index_absent(node_ids(self.nodes@), node_id@);
        }
        None
    }

    /// Spend a point to unlock the first node with id `node_id`. Refused, with
    /// the reason [`unlock_refusal`] gives and no change, when no point is
    /// left, there is no such node, it is already unlocked, or a node it
    /// requires is still locked.
    pub fn unlock_skill(&mut self, node_id: &str) -> (r: Result<(), &str>)
        ensures
            final(self).class == old(self).class,
            match unlock_refusal(old(self).nodes@, old(self).available_points, node_id@) {
                Some(reason) => {
                    &&& r == Err::<(), &str>(reason)
                    &&& final(self).nodes@ == old(self).nodes@
                    &&& final(self).available_points == old(self).available_points
                },
                None => {
                    let i = first_index_of(node_ids(old(self).nodes@), node_id@).unwrap();
                    &&& r == Ok::<(), &str>(())
                    &&& final(self).nodes@ == old(self).nodes@.update(i, SkillTreeNode { unlocked: true, ..old(self).nodes@[i] })
                    &&& final(self).available_points == old(self).available_points - 1
                },
            },
    {
        if self.available_points == 0 {
            return Err("No skill points available");
        }
        match self.find(node_id) {
            None => Err("Skill not found"),
            Some(idx) => {
                if self.nodes[idx].unlocked {
                    return Err("Skill already unlocked");
                }
                if !requirements_unlocked(&self.nodes, idx) {
                    return Err("Required skills not unlocked");
                }
                let mut node = self.nodes.remove(idx);
                node.unlocked = true;
                self.nodes.insert(idx, node);
                assert(self.nodes@ =~= old(self).nodes@.update(idx as int, SkillTreeNode { unlocked: true, ..old(self).nodes@[idx as int] }));
                self.available_points = self.available_points - 1;
                Ok(())
            },
        }
    }

    /// The unlocked nodes, in tree order.
    pub fn get_unlocked_skills(&self) -> (r: Vec<&SkillTreeNode<S, P>>)
        ensures
            r@.map_values(|n: &SkillTreeNode<S, P>| *n) == self.nodes@.filter(|n: SkillTreeNode<S, P>| n.unlocked),
    {
        let ghost pred = |n: SkillTreeNode<S, P>| n.unlocked;
        let mut out: Vec<&SkillTreeNode<S, P>> = Vec::new();
        let mut i: usize = 0;
        while i < self.nodes.len()
            invariant
                i <= self.nodes@.len(),
                pred == (|n: SkillTreeNode<S, P>| n.unlocked),
                out@.map_values(|n: &SkillTreeNode<S, P>| *n) == self.nodes@.take(i as int).filter(pred),
            decreases self.nodes@.len() - i,
        {
            proof {
                reveal_with_fuel(Seq::filter, 1);
                assert(self.nodes@.take(i as int + 1).drop_last() == self.nodes@.take(i as int));
            }
            let ghost before = out@;
            if self.nodes[i].unlocked {
                out.push(&self.nodes[i]);
                assert(out@.map_values(|n: &SkillTreeNode<S, P>| *n) =~= before.map_values(|n: &SkillTreeNode<S, P>| *n).push(self.nodes@[i as int]));
            }
            i += 1;
        }
        assert(self.nodes@.take(self.nodes@.len() as int) == self.nodes@);
        out
    }

    /// The locked nodes whose required nodes are all unlocked, in tree order.
    pub fn get_available_skills(&self) -> (r: Vec<&SkillTreeNode<S, P>>)
        ensures
            r@.map_values(|n: &SkillTreeNode<S, P>| *n)
                == self.nodes@.filter(|n: SkillTreeNode<S, P>| !n.unlocked && requirements_met(self.nodes@, n)),
    {
        let ghost pred = |n: SkillTreeNode<S, P>| !n.unlocked && requirements_met(self.nodes@, n);
        let mut out: Vec<&SkillTreeNode<S, P>> = Vec::new();
        let mut i: usize = 0;
        while i < self.nodes.len()
            invariant
                i <= self.nodes@.len(),
                pred == (|n: SkillTreeNode<S, P>| !n.unlocked && requirements_met(self.nodes@, n)),
                out@.map_values(|n: &SkillTreeNode<S, P>| *n) == self.nodes@.take(i as int).filter(pred),
            decreases self.nodes@.len() - i,
        {
            proof {
                reveal_with_fuel(Seq::filter, 1);
                assert(self.nodes@.take(i as int + 1).drop_last() == self.nodes@.take(i as int));
            }
            let ghost before = out@;
            if !self.nodes[i].unlocked && requirements_unlocked(&self.nodes, i) {
                out.push(&self.nodes[i]);
                assert(out@.map_values(|n: &SkillTreeNode<S, P>| *n) =~= before.map_values(|n: &SkillTreeNode<S, P>| *n).push(self.nodes@[i as int]));
            }
            i += 1;
        }
        assert(self.nodes@.take(self.nodes@.len() as int) == self.nodes@);
        out
    }

    /// Earn one skill point.
    pub fn add_skill_point(&mut self)
        requires
            old(self).available_points < u32::MAX,
        ensures
            final(self).available_points == old(self).available_points + 1,
            final(self).nodes@ == old(self).nodes@,
            final(self).class == old(self).class,
    {
        self.available_points = self.available_points + 1;
    }

    /// Whether [`SkillTree::unlock_skill`] would succeed for `node_id`.
    pub fn can_unlock(&self, node_id: &str) -> (r: bool)
        ensures
            r == (unlock_refusal(self.nodes@, self.available_points, node_id@) is None),
    {
        if self.available_points == 0 {
            return false;
        }
        match self.find(node_id) {
            Some(i) => {
                if self.nodes[i].unlocked {
                    return false;
                }
                self.nodes[i].required_nodes.len() == 0 || requirements_unlocked(&self.nodes, i)
            },
            None => false,
        }
    }
}

/// A node cannot be bought twice: right after a successful unlock, asking
/// to unlock the same id again is refused.
pub proof fn law_unlock_twice_refused<S, P>(nodes: Seq<SkillTreeNode<S, P>>, points: u32, id: Seq<char>)
    requires
        unlock_refusal(nodes, points, id) is None,
    ensures
        ({
            let i = first_index_of(node_ids(nodes), id).unwrap();
            let after = nodes.update(i, SkillTreeNode { unlocked: true, ..nodes[i] });
            unlock_refusal(after, (points - 1) as u32, id) is Some
        }),
{
    let i = first_index_of(node_ids(nodes), id).unwrap();
    let after = nodes.update(i, SkillTreeNode { unlocked: true, ..nodes[i] });
    assert(node_ids(after) =~= node_ids(nodes));
}

/// Unlocking a node never locks another: every node unlocked before is
/// still unlocked afterwards, and the unlocked node joins them.
pub proof fn law_unlock_is_monotone<S, P>(nodes: Seq<SkillTreeNode<S, P>>, i: int, j: int)
    requires
        0 <= i < nodes.len(),
        0 <= j < nodes.len(),
        nodes[j].unlocked || j == i,
    ensures
        nodes.update(i, SkillTreeNode { unlocked: true, ..nodes[i] })[j].unlocked,
{
}

/// The ids of the four nodes of the skill tree of `class`, in unlock order.
pub open spec fn tree_skill_ids(class: Class) -> Seq<Seq<char>> {
    match class {
        Class::TwinBlade => seq!["twin_slash"@, "wind_slash"@, "swift_blade"@, "cyclone"@],
        Class::HeavyBlade => seq!["heavy_strike"@, "earth_crush"@, "defense_up"@, "titan_cleave"@],
        Class::LongArm => seq!["spiral_stab"@, "flame_lance"@, "ice_spear"@, "dragon_thrust"@],
        Class::Wavemaster => seq!["fireball"@, "heal"@, "thunder_bolt"@, "meteor"@],
    }
}

/// The display names of the four nodes of the skill tree of `class`.
pub open spec fn tree_skill_names(class: Class) -> Seq<Seq<char>> {
    match class {
        Class::TwinBlade => seq!["Twin Slash"@, "Wind Slash"@, "Swift Blade"@, "Cyclone"@],
        Class::HeavyBlade => seq!["Heavy Strike"@, "Earth Crush"@, "Defense Up"@, "Titan Cleave"@],
        Class::LongArm => seq!["Spiral Stab"@, "Flame Lance"@, "Ice Spear"@, "Dragon Thrust"@],
        Class::Wavemaster => seq!["Fireball"@, "Heal"@, "Thunder Bolt"@, "Meteor"@],
    }
}

/// The descriptions of the four nodes of the skill tree of `class`.
pub open spec fn tree_skill_descriptions(class: Class) -> Seq<Seq<char>> {
    match class {
        Class::TwinBlade => seq![
            "A quick double slash attack"@,
            "A wind-element slash attack"@,
            "A lightning-fast blade strike"@,
            "A spinning wind attack that hits all enemies"@,
        ],
        Class::HeavyBlade => seq![
            "A powerful overhead strike"@,
            "Smashes the ground with earth element"@,
            "Temporarily increases defense"@,
            "A devastating earth-element cleave"@,
        ],
        Class::LongArm => seq![
            "A piercing spiral attack"@,
            "A fire-element lance thrust"@,
            "A water-element spear attack"@,
            "A legendary dragon-element thrust"@,
        ],
        Class::Wavemaster => seq![
            "A basic fire spell"@,
            "Restores HP to an ally"@,
            "A powerful wind-element lightning spell"@,
            "An ultimate fire-element spell"@,
        ],
    }
}

/// Element, power, MP cost and cooldown (tenths of a second) of the skills
/// granted by the four nodes of the tree of `class`.
pub open spec fn tree_skill_numbers(class: Class) -> Seq<(Element, u32, u32, u32)> {
    match class {
        Class::TwinBlade => seq![
            (Element::Null, 20u32, 5u32, 10u32),
            (Element::Wind, 35u32, 10u32, 30u32),
            (Element::Null, 15u32, 3u32, 5u32),
            (Element::Wind, 50u32, 20u32, 60u32),
        ],
        Class::HeavyBlade => seq![
            (Element::Null, 40u32, 10u32, 20u32),
            (Element::Earth, 55u32, 15u32, 40u32),
            (Element::Null, 0u32, 8u32, 50u32),
            (Element::Earth, 80u32, 25u32, 80u32),
        ],
        Class::LongArm => seq![
            (Element::Null, 25u32, 6u32, 15u32),
            (Element::Fire, 45u32, 12u32, 35u32),
            (Element::Water, 40u32, 12u32, 35u32),
            (Element::Fire, 70u32, 22u32, 70u32),
        ],
        Class::Wavemaster => seq![
            (Element::Fire, 50u32, 15u32, 30u32),
            (Element::Light, 0u32, 20u32, 40u32),
            (Element::Wind, 60u32, 18u32, 45u32),
            (Element::Fire, 100u32, 35u32, 100u32),
        ],
    }
}

/// The level the node of tier `k` (0 to 3) is meant for.
pub open spec fn tier_level(k: int) -> u32 {
    if k == 0 { 1 } else if k == 1 { 3 } else if k == 2 { 5 } else { 10 }
}

/// Where the node of tier `k` (0 to 3) sits on the tree diagram.
pub open spec fn tier_position(k: int) -> (u32, u32) {
    if k == 0 { (100, 200) } else if k == 1 { (250, 150) } else if k == 2 { (400, 200) } else { (550, 250) }
}

/// `n` is the node of tier `k` of the tree of `class`: its texts and skill
/// from the tables above, the level and place of its tier, requiring the
/// node of the tier before (none for the first), and unlocked exactly when
/// it is the first.
pub open spec fn is_tree_node(n: SkillTreeNode<SkillBlueprint, u32>, class: Class, k: int) -> bool {
    let numbers = tree_skill_numbers(class)[k];
    &&& n.id@ == tree_skill_ids(class)[k]
    &&& n.name@ == tree_skill_names(class)[k]
    &&& n.description@ == tree_skill_descriptions(class)[k]
    &&& n.skill.id@ == n.id@
    &&& n.skill.name@ == n.name@
    &&& (n.skill.element, n.skill.power, n.skill.mp_cost, n.skill.cooldown_tenths) == numbers
    &&& n.required_level == tier_level(k)
    &&& string_views(n.required_nodes@) == (if k == 0 {
        Seq::<Seq<char>>::empty()
    } else {
        seq![tree_skill_ids(class)[k - 1]]
    })
    &&& n.unlocked == (k == 0)
    &&& (n.position_x, n.position_y) == tier_position(k)
}

/// `nodes` is the full tree of `class`: its four tiers in order.
pub open spec fn is_class_tree(nodes: Seq<SkillTreeNode<SkillBlueprint, u32>>, class: Class) -> bool {
    &&& nodes.len() == 4
    &&& forall|k: int| 0 <= k < 4 ==> #[trigger] is_tree_node(nodes[k], class, k)
}

/// One node of a class tree, for tier `tier`, requiring `requires` if given.
fn tree_node(
    id: &str,
    name: &str,
    description: &str,
    element: Element,
    power: u32,
    mp_cost: u32,
    cooldown_tenths: u32,
    tier: usize,
    requires: Option<&str>,
) -> (n: SkillTreeNode<SkillBlueprint, u32>)
    requires
        tier < 4,
    ensures
        n.id@ == id@,
        n.name@ == name@,
        n.description@ == description@,
        n.skill.id@ == id@,
        n.skill.name@ == name@,
        (n.skill.element, n.skill.power, n.skill.mp_cost, n.skill.cooldown_tenths) == (element, power, mp_cost, cooldown_tenths),
        n.required_level == tier_level(tier as int),
        string_views(n.required_nodes@) == (match requires {
            None => Seq::<Seq<char>>::empty(),
            Some(r) => seq![r@],
        }),
        n.unlocked == (tier == 0),
        (n.position_x, n.position_y) == tier_position(tier as int),
{
    let (level, x, y): (u32, u32, u32) = if tier == 0 {
        (1, 100, 200)
    } else if tier == 1 {
        (3, 250, 150)
    } else if tier == 2 {
        (5, 400, 200)
    } else {
        (10, 550, 250)
    };
    let mut required_nodes: Vec<String> = Vec::new();
    match requires {
        None => {},
        Some(r) => required_nodes.push(r.to_string()),
    }
    assert(string_views(required_nodes@) =~= (match requires {
        None => Seq::<Seq<char>>::empty(),
        Some(r) => seq![r@],
    }));
    SkillTreeNode {
        id: id.to_string(),
        name: name.to_string(),
        description: description.to_string(),
        skill: SkillBlueprint::new(id, name, element, power, mp_cost, cooldown_tenths),
        required_level: level,
        required_nodes,
        unlocked: tier == 0,
        position_x: x,
        position_y: y,
    }
}

/// The skill tree of `class`: four nodes in a chain, the first unlocked.
pub fn create_skill_tree(class: Class) -> (r: Vec<SkillTreeNode<SkillBlueprint, u32>>)
    ensures
        is_class_tree(r@, class),
{
    let mut v: Vec<SkillTreeNode<SkillBlueprint, u32>> = Vec::new();
    match class {
        Class::TwinBlade => {
            v.push(tree_node("twin_slash", "Twin Slash", "A quick double slash attack", Element::Null, 20, 5, 10, 0, None));
            v.push(tree_node("wind_slash", "Wind Slash", "A wind-element slash attack", Element::Wind, 35, 10, 30, 1, Some("twin_slash")));
            v.push(tree_node("swift_blade", "Swift Blade", "A lightning-fast blade strike", Element::Null, 15, 3, 5, 2, Some("wind_slash")));
            v.push(tree_node("cyclone", "Cyclone", "A spinning wind attack that hits all enemies", Element::Wind, 50, 20, 60, 3, Some("swift_blade")));
        },
        Class::HeavyBlade => {
            v.push(tree_node("heavy_strike", "Heavy Strike", "A powerful overhead strike", Element::Null, 40, 10, 20, 0, None));
            v.push(tree_node("earth_crush", "Earth Crush", "Smashes the ground with earth element", Element::Earth, 55, 15, 40, 1, Some("heavy_strike")));
            v.push(tree_node("defense_up", "Defense Up", "Temporarily increases defense", Element::Null, 0, 8, 50, 2, Some("earth_crush")));
            v.push(tree_node("titan_cleave", "Titan Cleave", "A devastating earth-element cleave", Element::Earth, 80, 25, 80, 3, Some("defense_up")));
        },
        Class::LongArm => {
            v.push(tree_node("spiral_stab", "Spiral Stab", "A piercing spiral attack", Element::Null, 25, 6, 15, 0, None));
            v.push(tree_node("flame_lance", "Flame Lance", "A fire-element lance thrust", Element::Fire, 45, 12, 35, 1, Some("spiral_stab")));
            v.push(tree_node("ice_spear", "Ice Spear", "A water-element spear attack", Element::Water, 40, 12, 35, 2, Some("flame_lance")));
            v.push(tree_node("dragon_thrust", "Dragon Thrust", "A legendary dragon-element thrust", Element::Fire, 70, 22, 70, 3, Some("ice_spear")));
        },
        Class::Wavemaster => {
            v.push(tree_node("fireball", "Fireball", "A basic fire spell", Element::Fire, 50, 15, 30, 0, None));
            v.push(tree_node("heal", "Heal", "Restores HP to an ally", Element::Light, 0, 20, 40, 1, Some("fireball")));
            v.push(tree_node("thunder_bolt", "Thunder Bolt", "A powerful wind-element lightning spell", Element::Wind, 60, 18, 45, 2, Some("heal")));
            v.push(tree_node("meteor", "Meteor", "An ultimate fire-element spell", Element::Fire, 100, 35, 100, 3, Some("thunder_bolt")));
        },
    }
    assert(is_tree_node(v@[0], class, 0));
    assert(is_tree_node(v@[1], class, 1));
    assert(is_tree_node(v@[2], class, 2));
    assert(is_tree_node(v@[3], class, 3));
    v
}

impl SkillTree<SkillBlueprint, u32> {
    /// The tree of `class` with no skill points to spend yet.
    pub fn new(class: Class) -> (r: Self)
        ensures
            is_class_tree(r.nodes@, class),
            r.available_points == 0,
            r.class == class,
    {
        Self { nodes: create_skill_tree(class), available_points: 0, class }
    }
}

/// The four node ids of a class tree are pairwise distinct.
pub proof fn law_tree_ids_distinct(class: Class)
    ensures
        forall|i: int, j: int| 0 <= i < j < 4 ==> tree_skill_ids(class)[i] != tree_skill_ids(class)[j],
{
    reveal_strlit("twin_slash");
    reveal_strlit("wind_slash");
    reveal_strlit("swift_blade");
    reveal_strlit("cyclone");
    reveal_strlit("heavy_strike");
    reveal_strlit("earth_crush");
    reveal_strlit("defense_up");
    reveal_strlit("titan_cleave");
    reveal_strlit("spiral_stab");
    reveal_strlit("flame_lance");
    reveal_strlit("ice_spear");
    reveal_strlit("dragon_thrust");
    reveal_strlit("fireball");
    reveal_strlit("heal");
    reveal_strlit("thunder_bolt");
    reveal_strlit("meteor");
    let ids = tree_skill_ids(class);
    assert forall|i: int, j: int| 0 <= i < j < 4 implies ids[i] != ids[j] by {
        if ids[i].len() == ids[j].len() {
            assert(ids[i][0] != ids[j][0] || ids[i][1] != ids[j][1]);
        }
    }
}

/// On a fresh class tree with at least one point to spend, only the second
/// tier can be unlocked: the first is already unlocked, and every later
/// tier waits for the one before it.
pub proof fn law_fresh_tree_unlocks_second_tier(nodes: Seq<SkillTreeNode<SkillBlueprint, u32>>, class: Class, points: u32, k: int)
    requires
        is_class_tree(nodes, class),
        points > 0,
        0 <= k < 4,
    ensures
        unlock_refusal(nodes, points, tree_skill_ids(class)[k]) == (if k == 0 {
            Some("Skill already unlocked")
        } else if k == 1 {
            None
        } else {
            Some("Required skills not unlocked")
        }),
{
    law_tree_ids_distinct(class);
    let ids = tree_skill_ids(class);
    assert(is_tree_node(nodes[0], class, 0));
    assert(is_tree_node(nodes[1], class, 1));
    assert(is_tree_node(nodes[2], class, 2));
    assert(is_tree_node(nodes[3], class, 3));
    assert(node_ids(nodes)[k] == ids[k]);
    assert forall|j: int| 0 <= j < k implies node_ids(nodes)[j] != ids[k] by {
        assert(node_ids(nodes)[j] == ids[j]);
    }
    lemma_first_index_found(node_ids(nodes), ids[k], k);
    let reqs = string_views(nodes[k].required_nodes@);
    assert(reqs.len() == nodes[k].required_nodes@.len());
    if k == 1 {
        assert(reqs[0] == ids[0]);
        assert(nodes[1].required_nodes@[0]@ == reqs[0]);
        assert(unlocked_in(nodes, nodes[1].required_nodes@[0]@));
        assert(requirements_met(nodes, nodes[1]));
    } else if k >= 2 {
        assert(nodes[k].required_nodes@[0]@ == reqs[0]);
        assert(reqs[0] == ids[k - 1]);
        assert forall|j: int| 0 <= j < nodes.len() && #[trigger] nodes[j].id@ == ids[k - 1] implies !nodes[j].unlocked by {
            assert(nodes[j].id@ == ids[j]);
        }
        assert(!unlocked_in(nodes, nodes[k].required_nodes@[0]@));
    }
}

/// The nodes of `nodes` whose skills a character of `level` gains access
/// to: locked, every required node unlocked, and meant for `level` or below;
/// in tree order.
pub open spec fn level_up_skills<S, P>(nodes: Seq<SkillTreeNode<S, P>>, level: u32) -> Seq<SkillTreeNode<S, P>> {
    nodes.filter(|n: SkillTreeNode<S, P>| !n.unlocked && requirements_met(nodes, n) && n.required_level <= level)
}

impl ProgressionSystem {
    /// A level-up to `stats.level` (already reached): one more skill point,
    /// a screen listing copies of the skills of [`level_up_skills`], and a
    /// `LevelUp` event on the bus. The stats are left as they are.
    pub fn apply_level_up<S: Clone, P>(stats: &mut Stats, skill_tree: &mut SkillTree<S, P>, event_bus: &mut EventBus) -> (r: LevelUpScreen<S>)
        requires
            old(stats).level >= 1,
            old(skill_tree).available_points < u32::MAX,
            old(event_bus).max_events > 0 || old(event_bus).events@.len() > 0,
        ensures
            *final(stats) == *old(stats),
            final(skill_tree).available_points == old(skill_tree).available_points + 1,
            final(skill_tree).nodes@ == old(skill_tree).nodes@,
            final(skill_tree).class == old(skill_tree).class,
            final(event_bus).events@ == emitted(
                old(event_bus).events@,
                old(event_bus).max_events,
                (GameEvent::LevelUp { new_level: old(stats).level }),
            ),
            final(event_bus).max_events == old(event_bus).max_events,
            r.is_active,
            !r.confirmed,
            r.previous_level == old(stats).level - 1,
            r.new_level == old(stats).level,
            r.stat_increases == standard_increases(),
            r.new_skills_unlocked@.len() == level_up_skills(old(skill_tree).nodes@, old(stats).level).len(),
            forall|k: int| 0 <= k < r.new_skills_unlocked@.len() ==> cloned(
                #[trigger] level_up_skills(old(skill_tree).nodes@, old(stats).level)[k].skill,
                r.new_skills_unlocked@[k],
            ),
    {
        skill_tree.add_skill_point();
        let mut screen = LevelUpScreen::new(stats);
        let level = stats.level;
        let nodes = &skill_tree.nodes;
        let ghost pred = |n: SkillTreeNode<S, P>| !n.unlocked && requirements_met(nodes@, n) && n.required_level <= level;
        let mut i: usize = 0;
        while i < nodes.len()
            invariant
                i <= nodes@.len(),
                pred == (|n: SkillTreeNode<S, P>| !n.unlocked && requirements_met(nodes@, n) && n.required_level <= level),
                screen.new_skills_unlocked@.len() == nodes@.take(i as int).filter(pred).len(),
                forall|k: int| 0 <= k < screen.new_skills_unlocked@.len() ==> cloned(
                    #[trigger] nodes@.take(i as int).filter(pred)[k].skill,
                    screen.new_skills_unlocked@[k],
                ),
                screen.is_active,
                !screen.confirmed,
                screen.previous_level == level - 1,
                screen.new_level == level,
                screen.stat_increases == standard_increases(),
            decreases nodes@.len() - i,
        {
            proof {
                reveal_with_fuel(Seq::filter, 1);
                assert(nodes@.take(i as int + 1).drop_last() == nodes@.take(i as int));
            }
            if !nodes[i].unlocked && requirements_unlocked(nodes, i) && nodes[i].required_level <= level {
                let copy = nodes[i].skill.clone();
                screen.new_skills_unlocked.push(copy);
            }
            i += 1;
        }
        assert(nodes@.take(nodes@.len() as int) == nodes@);
        event_bus.emit(GameEvent::LevelUp { new_level: level });
        screen
    }

    /// Add `exp_gained` experience to a copy of `stats`; when that copy
    /// levels up, apply the level-up at its new level (see
    /// [`ProgressionSystem::apply_level_up`]) and return the screen,
    /// otherwise return `None` and change nothing. `stats` itself is not
    /// changed either way.
    pub fn check_level_up<S: Clone, P>(stats: &Stats, exp_gained: u64, skill_tree: &mut SkillTree<S, P>, event_bus: &mut EventBus) -> (r: Option<LevelUpScreen<S>>)
        requires
            stats.experience + exp_gained <= u64::MAX,
            stats.growth_fits(level_ups(stats.level as int, stats.next_level_exp as int, stats.experience + exp_gained)),
            level_ups(stats.level as int, stats.next_level_exp as int, stats.experience + exp_gained) > 0 ==> {
                &&& old(skill_tree).available_points < u32::MAX
                &&& old(event_bus).max_events > 0 || old(event_bus).events@.len() > 0
            },
        ensures
            ({
                let k = level_ups(stats.level as int, stats.next_level_exp as int, stats.experience + exp_gained);
                let reached = (stats.level + k) as u32;
                if k == 0 {
                    &&& r is None
                    &&& final(skill_tree).available_points == old(skill_tree).available_points
                    &&& final(skill_tree).nodes@ == old(skill_tree).nodes@
                    &&& final(event_bus).events@ == old(event_bus).events@
                } else {
                    &&& r is Some
                    &&& final(skill_tree).available_points == old(skill_tree).available_points + 1
                    &&& final(skill_tree).nodes@ == old(skill_tree).nodes@
                    &&& final(event_bus).events@ == emitted(
                        old(event_bus).events@,
                        old(event_bus).max_events,
                        (GameEvent::LevelUp { new_level: reached }),
                    )
                    &&& r.unwrap().is_active
                    &&& !r.unwrap().confirmed
                    &&& r.unwrap().previous_level == reached - 1
                    &&& r.unwrap().new_level == reached
                    &&& r.unwrap().stat_increases == standard_increases()
                    &&& r.unwrap().new_skills_unlocked@.len() == level_up_skills(old(skill_tree).nodes@, reached).len()
                    &&& forall|j: int| 0 <= j < r.unwrap().new_skills_unlocked@.len() ==> cloned(
                        #[trigger] level_up_skills(old(skill_tree).nodes@, reached)[j].skill,
                        r.unwrap().new_skills_unlocked@[j],
                    )
                }
            }),
            final(skill_tree).class == old(skill_tree).class,
            final(event_bus).max_events == old(event_bus).max_events,
    {
        let mut temp_stats = Stats {
            level: stats.level,
            hp: stats.hp,
            max_hp: stats.max_hp,
            mp: stats.mp,
            max_mp: stats.max_mp,
            attack: stats.attack,
            defense: stats.defense,
            magic_attack: stats.magic_attack,
            magic_defense: stats.magic_defense,
            agility: stats.agility,
            class: stats.class,
            experience: stats.experience,
            next_level_exp: stats.next_level_exp,
        };
        temp_stats.add_experience(exp_gained);
        if temp_stats.level > stats.level {
            Some(Self::apply_level_up(&mut temp_stats, skill_tree, event_bus))
        } else {
            None
        }
    }
}

/// The skills a level-up lists are exactly those of the locked nodes that
/// can be bought now: each listed node is a locked node of the tree, meant
/// for the reached level or below, and for every node it requires some
/// unlocked node of the tree has that id; and every such node of the tree is
/// listed.
pub proof fn law_level_up_lists_reachable_skills<S, P>(nodes: Seq<SkillTreeNode<S, P>>, level: u32)
    ensures
        forall|k: int| #![trigger level_up_skills(nodes, level)[k]] 0 <= k < level_up_skills(nodes, level).len() ==> {
            &&& nodes.contains(level_up_skills(nodes, level)[k])
            &&& !level_up_skills(nodes, level)[k].unlocked
            &&& level_up_skills(nodes, level)[k].required_level <= level
            &&& forall|q: int| 0 <= q < level_up_skills(nodes, level)[k].required_nodes@.len()
                ==> unlocked_in(nodes, #[trigger] level_up_skills(nodes, level)[k].required_nodes@[q]@)
        },
        forall|i: int|
            0 <= i < nodes.len() && !nodes[i].unlocked && nodes[i].required_level <= level
                && (forall|q: int| 0 <= q < nodes[i].required_nodes@.len()
                    ==> unlocked_in(nodes, #[trigger] nodes[i].required_nodes@[q]@))
                ==> level_up_skills(nodes, level).contains(#[trigger] nodes[i]),
{
    let pred = |n: SkillTreeNode<S, P>| !n.unlocked && requirements_met(nodes, n) && n.required_level <= level;
    assert(level_up_skills(nodes, level) == nodes.filter(pred));
    assert forall|k: int| #![trigger level_up_skills(nodes, level)[k]] 0 <= k < level_up_skills(nodes, level).len() implies {
        &&& nodes.contains(level_up_skills(nodes, level)[k])
        &&& !level_up_skills(nodes, level)[k].unlocked
        &&& level_up_skills(nodes, level)[k].required_level <= level
        &&& forall|q: int| 0 <= q < level_up_skills(nodes, level)[k].required_nodes@.len()
            ==> unlocked_in(nodes, #[trigger] level_up_skills(nodes, level)[k].required_nodes@[q]@)
    } by {
        nodes.lemma_filter_pred(pred, k);
        let n = level_up_skills(nodes, level)[k];
        assert(nodes.filter(pred).contains(n));
        nodes.lemma_filter_contains_rev(pred, n);
    }
    assert forall|i: int|
        0 <= i < nodes.len() && !nodes[i].unlocked && nodes[i].required_level <= level
            && (forall|q: int| 0 <= q < nodes[i].required_nodes@.len()
                ==> unlocked_in(nodes, #[trigger] nodes[i].required_nodes@[q]@))
        implies level_up_skills(nodes, level).contains(#[trigger] nodes[i]) by {
        assert(pred(nodes[i]));
        nodes.lemma_filter_contains(pred, i);
    }
}

} // verus!
