//! Quests, their objectives and rewards, quest dialogue, and the manager
//! that tracks which quests are active and completed.
use vstd::prelude::*;
use crate::game::event::QuestStatus;
use crate::text::{
    first_index_of, lemma_first_index_absent, lemma_first_index_found, remove_id, str_eq,
    string_views, without_id,
};

verus! {

/// A quest: objectives to fulfil, rewards, and what is said when it starts
/// and when it is completed.
#[derive(Debug, Clone)]
pub struct Quest {
    pub id: String,
    pub name: String,
    pub description: String,
    pub status: QuestStatus,
    pub objectives: Vec<QuestObjective>,
    pub rewards: QuestRewards,
    pub dialogue_on_start: Vec<DialogueNode>,
    pub dialogue_on_complete: Vec<DialogueNode>,
}

/// One countable goal of a quest.
#[derive(Debug, Clone)]
pub struct QuestObjective {
    pub id: String,
    pub description: String,
    pub objective_type: ObjectiveType,
    pub target_id: String,
    pub required_amount: u32,
    pub current_amount: u32,
    pub is_complete: bool,
}

/// What an objective asks the player to do.
#[derive(Debug, Clone, Copy, PartialEq, Eq, Structural)]
pub enum ObjectiveType {
    Kill,
    Collect,
    Talk,
    Explore,
    UseChaosGate,
    DefeatBoss,
}

/// What completing a quest earns.
#[derive(Debug, Clone)]
pub struct QuestRewards {
    pub experience: u64,
    pub gold: u64,
    pub items: Vec<String>,
}

/// One line of dialogue with the choices that follow it.
#[derive(Debug, Clone)]
pub struct DialogueNode {
    pub id: String,
    pub speaker: String,
    pub text: String,
    pub choices: Vec<DialogueChoice>,
    pub is_end: bool,
    pub event_to_trigger: Option<String>,
}

/// A reply the player can pick; it may be offered only while some quest
/// has a given status.
#[derive(Debug, Clone)]
pub struct DialogueChoice {
    pub text: String,
    pub next_node_id: String,
    pub required_quest_status: Option<(String, QuestStatus)>,
}

/// The registered quests and the ids of the active and completed ones.
pub struct QuestManager {
    pub quests: Vec<Quest>,
    pub active_quests: Vec<String>,
    pub completed_quests: Vec<String>,
}

/// The ids of `quests`, in order.
pub open spec fn quest_ids(quests: Seq<Quest>) -> Seq<Seq<char>> {
    quests.map_values(|q: Quest| q.id@)
}

/// The ids of `objectives`, in order.
pub open spec fn objective_ids(objectives: Seq<QuestObjective>) -> Seq<Seq<char>> {
    objectives.map_values(|o: QuestObjective| o.id@)
}

/// The objective after `amount` more progress: the count is capped at the
/// required amount, and reaching it marks the objective complete.
pub open spec fn progressed(o: QuestObjective, amount: u32) -> QuestObjective {
    let raised = o.current_amount + amount;
    let count: u32 = if raised <= o.required_amount { raised as u32 } else { o.required_amount };
    QuestObjective {
        current_amount: count,
        is_complete: o.is_complete || count >= o.required_amount,
        ..o
    }
}

/// The objectives after progress `amount` on the first one called
/// `objective_id`; unchanged when there is none.
pub open spec fn objectives_after(objectives: Seq<QuestObjective>, objective_id: Seq<char>, amount: u32) -> Seq<QuestObjective> {
    match first_index_of(objective_ids(objectives), objective_id) {
        Some(k) => objectives.update(k, progressed(objectives[k], amount)),
        None => objectives,
    }
}

/// Every objective is complete (vacuously so when there are none).
pub open spec fn all_complete(objectives: Seq<QuestObjective>) -> bool {
    forall|k: int| 0 <= k < objectives.len() ==> #[trigger] objectives[k].is_complete
}

/// `q2` is `q` with the given objectives and status, and nothing else changed.
pub open spec fn quest_with(q: Quest, objectives: Seq<QuestObjective>, status: QuestStatus, q2: Quest) -> bool {
    &&& q2.id == q.id
    &&& q2.name == q.name
    &&& q2.description == q.description
    &&& q2.status == status
    &&& q2.objectives@ == objectives
    &&& q2.rewards == q.rewards
    &&& q2.dialogue_on_start == q.dialogue_on_start
    &&& q2.dialogue_on_complete == q.dialogue_on_complete
}

/// `o` is a fresh objective with the given fields and no progress.
pub open spec fn fresh_objective(o: QuestObjective, id: Seq<char>, description: Seq<char>, objective_type: ObjectiveType, target_id: Seq<char>, required: u32) -> bool {
    &&& o.id@ == id
    &&& o.description@ == description
    &&& o.objective_type == objective_type
    &&& o.target_id@ == target_id
    &&& o.required_amount == required
    &&& o.current_amount == 0
    &&& !o.is_complete
}

/// `c` is an unconditional choice with the given text leading to `next`.
pub open spec fn plain_choice(c: DialogueChoice, text: Seq<char>, next: Seq<char>) -> bool {
    &&& c.text@ == text
    &&& c.next_node_id@ == next
    &&& c.required_quest_status is None
}

/// `n` has the given id, speaker and text, ends the dialogue or not as
/// given, and triggers the given event (by its view).
pub open spec fn node_is(n: DialogueNode, id: Seq<char>, speaker: Seq<char>, text: Seq<char>, is_end: bool, event: Option<Seq<char>>) -> bool {
    &&& n.id@ == id
    &&& n.speaker@ == speaker
    &&& n.text@ == text
    &&& n.is_end == is_end
    &&& match (n.event_to_trigger, event) {
        (Some(e), Some(v)) => e@ == v,
        (None, None) => true,
        _ => false,
    }
}

/// The tutorial quest "tutorial_01" exactly as the game defines it.
pub open spec fn is_tutorial_quest(q: Quest) -> bool {
    &&& q.id@ == "tutorial_01"@
    &&& q.name@ == "Welcome to Shambala"@
    &&& q.description@ == "Learn the basics of navigating the world of Shambala."@
    &&& q.status == QuestStatus::Started
    &&& q.objectives@.len() == 3
    &&& fresh_objective(q.objectives@[0], "talk_to_helba"@, "Talk to Helba in Mac Anu"@, ObjectiveType::Talk, "npc_helba"@, 1)
    &&& fresh_objective(q.objectives@[1], "use_chaos_gate"@, "Use the Chaos Gate to travel to a field area"@, ObjectiveType::UseChaosGate, "chaos_gate"@, 1)
    &&& fresh_objective(q.objectives@[2], "defeat_goblins"@, "Defeat 3 Goblins in the field"@, ObjectiveType::Kill, "Goblin"@, 3)
    &&& q.rewards.experience == 100
    &&& q.rewards.gold == 50
    &&& string_views(q.rewards.items@) == seq!["potion"@, "ether"@]
    &&& q.dialogue_on_start@.len() == 3
    &&& node_is(q.dialogue_on_start@[0], "start_1"@, "Helba"@, "Welcome to Shambala, traveler. This world is not what it seems."@, false, None)
    &&& q.dialogue_on_start@[0].choices@.len() == 1
    &&& plain_choice(q.dialogue_on_start@[0].choices@[0], "What do you mean?"@, "start_2"@)
    &&& node_is(q.dialogue_on_start@[1], "start_2"@, "Helba"@, "Many players have found themselves unable to log out. We need your help to uncover the truth."@, false, None)
    &&& q.dialogue_on_start@[1].choices@.len() == 1
    &&& plain_choice(q.dialogue_on_start@[1].choices@[0], "I'll help."@, "start_3"@)
    &&& node_is(q.dialogue_on_start@[2], "start_3"@, "Helba"@, "Good. First, learn to use the Chaos Gate to travel between areas. Then defeat some Goblins to test your combat skills."@, true, Some("quest_started"@))
    &&& q.dialogue_on_start@[2].choices@.len() == 0
    &&& q.dialogue_on_complete@.len() == 1
    &&& node_is(q.dialogue_on_complete@[0], "complete_1"@, "Helba"@, "Excellent work! You've proven yourself capable. There's much more to discover."@, true, Some("quest_complete"@))
    &&& q.dialogue_on_complete@[0].choices@.len() == 0
}

fn objective(id: &str, description: &str, objective_type: ObjectiveType, target_id: &str, required: u32) -> (r: QuestObjective)
    ensures
        fresh_objective(r, id@, description@, objective_type, target_id@, required),
{
    QuestObjective {
        id: id.to_string(),
        description: description.to_string(),
        objective_type,
        target_id: target_id.to_string(),
        required_amount: required,
        current_amount: 0,
        is_complete: false,
    }
}

fn choice(text: &str, next: &str) -> (r: DialogueChoice)
    ensures
        plain_choice(r, text@, next@),
{
    DialogueChoice { text: text.to_string(), next_node_id: next.to_string(), required_quest_status: None }
}

fn node(id: &str, speaker: &str, text: &str, choices: Vec<DialogueChoice>, is_end: bool, event: Option<&str>) -> (r: DialogueNode)
    ensures
        node_is(r, id@, speaker@, text@, is_end, match event { Some(e) => Some(e@), None => None }),
        r.choices@ == choices@,
{
    let event_to_trigger = match event {
        Some(e) => Some(e.to_string()),
        None => None,
    };
    DialogueNode { id: id.to_string(), speaker: speaker.to_string(), text: text.to_string(), choices, is_end, event_to_trigger }
}

/// The position of the first quest in `quests` with id `id`, found by a
/// front-to-back scan.
fn find_quest(quests: &Vec<Quest>, id: &str) -> (r: Option<usize>)
    ensures
        match r {
            Some(i) => first_index_of(quest_ids(quests@), id@) == Some(i as int),
            None => first_index_of(quest_ids(quests@), id@) is None,
        },
{
    let mut i: usize = 0;
    while i < quests.len()
        invariant
            i <= quests@.len(),
            forall|j: int| 0 <= j < i ==> quest_ids(quests@)[j] != id@,
        decreases quests@.len() - i,
    {
        if str_eq(quests[i].id.as_str(), id) {
            proof {
                lemma_first_index_found(quest_ids(quests@), id@, i as int);
            }
            return Some(i);
        }
        i += 1;
    }
    proof {
        lemma_first_index_absent(quest_ids(quests@), id@);
    }
    None
}

/// The position of the first objective in `objectives` with id `id`.
fn find_objective(objectives: &Vec<QuestObjective>, id: &str) -> (r: Option<usize>)
    ensures
        match r {
            Some(k) => first_index_of(objective_ids(objectives@), id@) == Some(k as int),
            None => first_index_of(objective_ids(objectives@), id@) is None,
        },
{
    let mut k: usize = 0;
    while k < objectives.len()
        invariant
            k <= objectives@.len(),
            forall|j: int| 0 <= j < k ==> objective_ids(objectives@)[j] != id@,
        decreases objectives@.len() - k,
    {
        if str_eq(objectives[k].id.as_str(), id) {
            proof {
                lemma_first_index_found(objective_ids(objectives@), id@, k as int);
            }
            return Some(k);
        }
        k += 1;
    }
    proof {
        lemma_first_index_absent(objective_ids(objectives@), id@);
    }
    None
}

impl QuestManager {
    /// A manager with no quests.
    pub fn new() -> (r: Self)
        ensures
            r.quests@.len() == 0,
            r.active_quests@.len() == 0,
            r.completed_quests@.len() == 0,
    {
        Self { quests: Vec::new(), active_quests: Vec::new(), completed_quests: Vec::new() }
    }

    /// Add `quest` to the registered quests.
    pub fn register_quest(&mut self, quest: Quest)
        ensures
            final(self).quests@ == old(self).quests@.push(quest),
            final(self).active_quests@ == old(self).active_quests@,
            final(self).completed_quests@ == old(self).completed_quests@,
    {
        self.quests.push(quest);
    }

    /// Start the first registered quest with id `quest_id`: it becomes
    /// `InProgress` and its id is appended to the active quests. Refused
    /// with "Quest not found" when there is no such quest and with "Quest
    /// already active" when it is already in progress; a refusal changes
    /// nothing.
    pub fn start_quest(&mut self, quest_id: &str) -> (r: Result<(), &str>)
        ensures
            final(self).completed_quests@ == old(self).completed_quests@,
            match first_index_of(quest_ids(old(self).quests@), quest_id@) {
                None => {
                    &&& r == Err::<(), &str>("Quest not found")
                    &&& final(self).quests@ == old(self).quests@
                    &&& final(self).active_quests@ == old(self).active_quests@
                },
                Some(i) => if old(self).quests@[i].status == QuestStatus::InProgress {
                    &&& r == Err::<(), &str>("Quest already active")
                    &&& final(self).quests@ == old(self).quests@
                    &&& final(self).active_quests@ == old(self).active_quests@
                } else {
                    &&& r == Ok::<(), &str>(())
                    &&& final(self).quests@ == old(self).quests@.update(
                        i,
                        Quest { status: QuestStatus::InProgress, ..old(self).quests@[i] },
                    )
                    &&& final(self).active_quests@.drop_last() == old(self).active_quests@
                    &&& final(self).active_quests@.len() == old(self).active_quests@.len() + 1
                    &&& final(self).active_quests@.last()@ == quest_id@
                },
            },
    {
        match find_quest(&self.quests, quest_id) {
            None => Err("Quest not found"),
            Some(i) => {
                if self.quests[i].status == QuestStatus::InProgress {
                    return Err("Quest already active");
                }
                let mut quest = self.quests.remove(i);
                quest.status = QuestStatus::InProgress;
                self.quests.insert(i, quest);
                self.active_quests.push(quest_id.to_string());
                assert(self.quests@ =~= old(self).quests@.update(
                    i as int,
                    Quest { status: QuestStatus::InProgress, ..old(self).quests@[i as int] },
                ));
                assert(self.active_quests@.drop_last() =~= old(self).active_quests@);
                Ok(())
            },
        }
    }

    /// Record `amount` more progress on objective `objective_id` of quest
    /// `quest_id` (the first ones with those ids). The objective's count is
    /// capped at its required amount and reaching it completes the
    /// objective. Then, if every objective of the quest is complete, the
    /// quest becomes `Completed`, its id leaves the active quests and is
    /// appended to the completed ones. Nothing happens when no quest has
    /// that id.
    pub fn update_objective(&mut self, quest_id: &str, objective_id: &str, amount: u32)
        requires
            forall|i: int, k: int|
                first_index_of(quest_ids(old(self).quests@), quest_id@) == Some(i)
                && first_index_of(objective_ids(old(self).quests@[i].objectives@), objective_id@) == Some(k)
                ==> old(self).quests@[i].objectives@[k].current_amount + amount <= u32::MAX,
        ensures
            match first_index_of(quest_ids(old(self).quests@), quest_id@) {
                None => {
                    &&& final(self).quests@ == old(self).quests@
                    &&& final(self).active_quests@ == old(self).active_quests@
                    &&& final(self).completed_quests@ == old(self).completed_quests@
                },
                Some(i) => {
                    let objectives = objectives_after(old(self).quests@[i].objectives@, objective_id@, amount);
                    let done = all_complete(objectives);
                    &&& final(self).quests@.len() == old(self).quests@.len()
                    &&& forall|j: int| 0 <= j < old(self).quests@.len() && j != i
                        ==> #[trigger] final(self).quests@[j] == old(self).quests@[j]
                    &&& quest_with(
                        old(self).quests@[i],
                        objectives,
                        if done { QuestStatus::Completed } else { old(self).quests@[i].status },
                        final(self).quests@[i],
                    )
                    &&& done ==> {
                        &&& final(self).active_quests@ == without_id(old(self).active_quests@, quest_id@)
                        &&& final(self).completed_quests@.drop_last() == old(self).completed_quests@
                        &&& final(self).completed_quests@.len() == old(self).completed_quests@.len() + 1
                        &&& final(self).completed_quests@.last()@ == quest_id@
                    }
                    &&& !done ==> {
                        &&& final(self).active_quests@ == old(self).active_quests@
                        &&& final(self).completed_quests@ == old(self).completed_quests@
                    }
                },
            },
    {
        let i = match find_quest(&self.quests, quest_id) {
            None => return,
            Some(i) => i,
        };
        let ghost old_quest = self.quests@[i as int];
        let mut quest = self.quests.remove(i);
        match find_objective(&quest.objectives, objective_id) {
            Some(k) => {
                let mut obj = quest.objectives.remove(k);
                let raised = obj.current_amount + amount;
                obj.current_amount = if raised <= obj.required_amount { raised } else { obj.required_amount };
                if obj.current_amount >= obj.required_amount {
                    obj.is_complete = true;
                }
                quest.objectives.insert(k, obj);
                assert(quest.objectives@ =~= objectives_after(old_quest.objectives@, objective_id@, amount));
            },
            None => {},
        }
        let ghost objectives = objectives_after(old_quest.objectives@, objective_id@, amount);
        let mut done = true;
        let mut m: usize = 0;
        while m < quest.objectives.len()
            invariant
                m <= quest.objectives@.len(),
                quest.objectives@ == objectives,
                done == forall|p: int| 0 <= p < m ==> #[trigger] objectives[p].is_complete,
            decreases quest.objectives@.len() - m,
        {
            if !quest.objectives[m].is_complete {
                done = false;
            }
            m += 1;
        }
        if done {
            quest.status = QuestStatus::Completed;
        }
        self.quests.insert(i, quest);
        assert(self.quests@.len() == old(self).quests@.len());
        assert forall|j: int| 0 <= j < old(self).quests@.len() && j != i
            implies #[trigger] self.quests@[j] == old(self).quests@[j] by {
            if j < i {
            } else {
            }
        }
        if done {
            self.active_quests = remove_id(&self.active_quests, quest_id);
            self.completed_quests.push(quest_id.to_string());
            assert(self.completed_quests@.drop_last() =~= old(self).completed_quests@);
        }
    }

    /// The first registered quest with id `quest_id`, if any.
    pub fn get_quest(&self, quest_id: &str) -> (r: Option<&Quest>)
        ensures
            match first_index_of(quest_ids(self.quests@), quest_id@) {
                Some(i) => r is Some && *r.unwrap() == self.quests@[i],
                None => r is None,
            },
    {
        match find_quest(&self.quests, quest_id) {
            Some(i) => Some(&self.quests[i]),
            None => None,
        }
    }

    /// The registered quests whose id is among the active quests, in
    /// registration order.
    pub fn get_active_quests(&self) -> (r: Vec<&Quest>)
        ensures
            r@.map_values(|q: &Quest| *q)
                == self.quests@.filter(|q: Quest| string_views(self.active_quests@).contains(q.id@)),
    {
        let ghost active = string_views(self.active_quests@);
        let ghost pred = |q: Quest| active.contains(q.id@);
        let mut out: Vec<&Quest> = Vec::new();
        let mut i: usize = 0;
        while i < self.quests.len()
            invariant
                i <= self.quests@.len(),
                active == string_views(self.active_quests@),
                pred == (|q: Quest| active.contains(q.id@)),
                out@.map_values(|q: &Quest| *q) == self.quests@.take(i as int).filter(pred),
            decreases self.quests@.len() - i,
        {
            proof {
                reveal_with_fuel(Seq::filter, 1);
                assert(self.quests@.take(i as int + 1).drop_last() == self.quests@.take(i as int));
            }
            let mut found = false;
            let mut a: usize = 0;
            while a < self.active_quests.len()
                invariant
                    i < self.quests@.len(),
                    a <= self.active_quests@.len(),
                    active == string_views(self.active_quests@),
                    found == exists|b: int| 0 <= b < a && active[b] == self.quests@[i as int].id@,
                decreases self.active_quests@.len() - a,
            {
                assert(active[a as int] == self.active_quests@[a as int]@);
                if self.active_quests[a] == self.quests[i].id {
                    found = true;
                }
                a += 1;
            }
            assert(found == active.contains(self.quests@[i as int].id@));
            let ghost before = out@;
            if found {
                out.push(&self.quests[i]);
                assert(out@.map_values(|q: &Quest| *q) =~= before.map_values(|q: &Quest| *q).push(self.quests@[i as int]));
            }
            i += 1;
        }
        assert(self.quests@.take(self.quests@.len() as int) == self.quests@);
        out
    }

    /// The dialogue of the first quest with id `quest_id`: its completion
    /// dialogue when `is_completion`, its opening dialogue otherwise; `None`
    /// when there is no such quest.
    pub fn get_dialogue_for_quest(&self, quest_id: &str, is_completion: bool) -> (r: Option<&[DialogueNode]>)
        ensures
            match first_index_of(quest_ids(self.quests@), quest_id@) {
                Some(i) => r is Some && r.unwrap()@ == (if is_completion {
                    self.quests@[i].dialogue_on_complete@
                } else {
                    self.quests@[i].dialogue_on_start@
                }),
                None => r is None,
            },
    {
        match find_quest(&self.quests, quest_id) {
            Some(i) => {
                if is_completion {
                    Some(self.quests[i].dialogue_on_complete.as_slice())
                } else {
                    Some(self.quests[i].dialogue_on_start.as_slice())
                }
            },
            None => None,
        }
    }

    /// The tutorial quest: talk to Helba, use the Chaos Gate, defeat three
    /// Goblins; 100 experience, 50 gold, a potion and an ether.
    pub fn create_tutorial_quest() -> (r: Quest)
        ensures
            is_tutorial_quest(r),
    {
        let objectives = vec![
            objective("talk_to_helba", "Talk to Helba in Mac Anu", ObjectiveType::Talk, "npc_helba", 1),
            objective("use_chaos_gate", "Use the Chaos Gate to travel to a field area", ObjectiveType::UseChaosGate, "chaos_gate", 1),
            objective("defeat_goblins", "Defeat 3 Goblins in the field", ObjectiveType::Kill, "Goblin", 3),
        ];
        let items = vec!["potion".to_string(), "ether".to_string()];
        let dialogue_on_start = vec![
            node(
                "start_1", "Helba", "Welcome to Shambala, traveler. This world is not what it seems.",
                vec![choice("What do you mean?", "start_2")], false, None,
            ),
            node(
                "start_2", "Helba", "Many players have found themselves unable to log out. We need your help to uncover the truth.",
                vec![choice("I'll help.", "start_3")], false, None,
            ),
            node(
                "start_3", "Helba", "Good. First, learn to use the Chaos Gate to travel between areas. Then defeat some Goblins to test your combat skills.",
                vec![], true, Some("quest_started"),
            ),
        ];
        let dialogue_on_complete = vec![
            node(
                "complete_1", "Helba", "Excellent work! You've proven yourself capable. There's much more to discover.",
                vec![], true, Some("quest_complete"),
            ),
        ];
        let q = Quest {
            id: "tutorial_01".to_string(),
            name: "Welcome to Shambala".to_string(),
            description: "Learn the basics of navigating the world of Shambala.".to_string(),
            status: QuestStatus::Started,
            objectives,
            rewards: QuestRewards { experience: 100, gold: 50, items },
            dialogue_on_start,
            dialogue_on_complete,
        };
        assert(string_views(q.rewards.items@) =~= seq!["potion"@, "ether"@]);
        q
    }
}

/// Progress on an objective accumulates: after recording `a` more on an
/// objective with count `c` and requirement `r`, its count is the smaller of
/// `c + a` and `r`, never below the old count when that was within the
/// requirement; the objective is complete once its count reaches `r` (or was
/// already); nothing else about it changes; and recording `a` and then `b`
/// is the same as recording `a + b` at once.
pub proof fn law_progress_accumulates(o: QuestObjective, a: u32, b: u32)
    requires
        a + b <= u32::MAX,
    ensures
        progressed(o, a).current_amount == (if o.current_amount + a <= o.required_amount {
            o.current_amount + a
        } else {
            o.required_amount as int
        }),
        o.current_amount <= o.required_amount ==> progressed(o, a).current_amount >= o.current_amount,
        o.current_amount <= o.required_amount && o.current_amount + a <= o.required_amount
            ==> progressed(o, a).current_amount == o.current_amount + a,
        progressed(o, a).is_complete == (o.is_complete || o.current_amount + a >= o.required_amount),
        progressed(o, a).id == o.id,
        progressed(o, a).description == o.description,
        progressed(o, a).objective_type == o.objective_type,
        progressed(o, a).target_id == o.target_id,
        progressed(o, a).required_amount == o.required_amount,
        progressed(progressed(o, a), b) == progressed(o, (a + b) as u32),
{
}

} // verus!
