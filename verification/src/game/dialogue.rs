//! NPC conversations: walking a dialogue graph, with choices that may
//! depend on the status of quests.
use vstd::prelude::*;
use crate::game::character_select::{cursor_after, cursor_moves_defined};
use crate::game::quest::{DialogueChoice, DialogueNode, QuestManager, quest_ids};
use crate::resources::input_state::{InputAction, InputStateResource};
use crate::text::{first_index_of, is_first_index, lemma_first_index_absent, lemma_first_index_found, string_push};

verus! {

/// The ids of `nodes`, in order.
pub open spec fn dialogue_ids(nodes: Seq<DialogueNode>) -> Seq<Seq<char>> {
    nodes.map_values(|n: DialogueNode| n.id@)
}

/// Whether choice `c` is offered given the registered quests: an
/// unconditional choice always is; a conditional one only when the first
/// quest with the named id exists and has the required status.
pub open spec fn choice_offered(quests: Seq<crate::game::quest::Quest>, c: DialogueChoice) -> bool {
    match c.required_quest_status {
        None => true,
        Some((quest_id, status)) => match first_index_of(quest_ids(quests), quest_id@) {
            Some(i) => quests[i].status == status,
            None => false,
        },
    }
}

/// The choices of `node` that are offered, in order.
pub open spec fn offered_choices(quests: Seq<crate::game::quest::Quest>, node: DialogueNode) -> Seq<DialogueChoice> {
    node.choices@.filter(|c: DialogueChoice| choice_offered(quests, c))
}

/// A conversation with one NPC. The typing animation of the current line
/// runs in the application, which sets `text_fully_displayed` once the whole
/// line is shown.
#[derive(Debug, Clone)]
pub struct NPCDialogue {
    pub npc_id: String,
    pub npc_name: String,
    pub current_node: String,
    pub nodes: Vec<DialogueNode>,
    pub is_active: bool,
    pub selected_choice: usize,
    pub text_fully_displayed: bool,
}

impl NPCDialogue {
    /// The node of the conversation being shown, if it exists.
    pub open spec fn current(&self) -> Option<DialogueNode> {
        match first_index_of(dialogue_ids(self.nodes@), self.current_node@) {
            Some(i) => Some(self.nodes@[i]),
            None => None,
        }
    }
}

fn copy_choice(c: &DialogueChoice) -> (r: DialogueChoice)
    ensures
        r == *c,
{
    let required = match &c.required_quest_status {
        Some((quest_id, status)) => Some((quest_id.clone(), *status)),
        None => None,
    };
    DialogueChoice { text: c.text.clone(), next_node_id: c.next_node_id.clone(), required_quest_status: required }
}

fn is_offered(quest_manager: &QuestManager, c: &DialogueChoice) -> (r: bool)
    ensures
        r == choice_offered(quest_manager.quests@, *c),
{
    match &c.required_quest_status {
        None => true,
        Some((quest_id, status)) => match quest_manager.get_quest(quest_id.as_str()) {
            Some(quest) => quest.status == *status,
            None => false,
        },
    }
}

fn collect_offered(quest_manager: &QuestManager, node: &DialogueNode) -> (r: Vec<DialogueChoice>)
    ensures
        r@ == offered_choices(quest_manager.quests@, *node),
{
    let ghost pred = |c: DialogueChoice| choice_offered(quest_manager.quests@, c);
    let mut out: Vec<DialogueChoice> = Vec::new();
    let mut i: usize = 0;
    while i < node.choices.len()
        invariant
            i <= node.choices@.len(),
            pred == (|c: DialogueChoice| choice_offered(quest_manager.quests@, c)),
            out@ == node.choices@.take(i as int).filter(pred),
        decreases node.choices@.len() - i,
    {
        proof {
            reveal_with_fuel(Seq::filter, 1);
            assert(node.choices@.take(i as int + 1).drop_last() == node.choices@.take(i as int));
        }
        if is_offered(quest_manager, &node.choices[i]) {
            out.push(copy_choice(&node.choices[i]));
        }
        i += 1;
    }
    assert(node.choices@.take(node.choices@.len() as int) == node.choices@);
    out
}

impl NPCDialogue {
    /// An inactive conversation with NPC `npc_id` called `npc_name`, with no
    /// lines yet, positioned at "start".
    pub fn new(npc_id: &str, npc_name: &str) -> (r: Self)
        ensures
            r.npc_id@ == npc_id@,
            r.npc_name@ == npc_name@,
            r.current_node@ == "start"@,
            r.nodes@.len() == 0,
            !r.is_active,
            r.selected_choice == 0,
            !r.text_fully_displayed,
    {
        Self {
            npc_id: npc_id.to_string(),
            npc_name: npc_name.to_string(),
            current_node: "start".to_string(),
            nodes: Vec::new(),
            is_active: false,
            selected_choice: 0,
            text_fully_displayed: false,
        }
    }

    /// Begin a conversation over `nodes`, at the node "start", first choice
    /// selected, its line not yet shown.
    pub fn start_dialogue(&mut self, nodes: Vec<DialogueNode>)
        ensures
            final(self).nodes@ == nodes@,
            final(self).current_node@ == "start"@,
            final(self).is_active,
            final(self).selected_choice == 0,
            !final(self).text_fully_displayed,
            final(self).npc_id == old(self).npc_id,
            final(self).npc_name == old(self).npc_name,
    {
        self.nodes = nodes;
        self.current_node = "start".to_string();
        self.is_active = true;
        self.selected_choice = 0;
        self.text_fully_displayed = false;
    }

    /// End the conversation and forget its lines.
    pub fn end_dialogue(&mut self)
        ensures
            !final(self).is_active,
            final(self).nodes@.len() == 0,
            final(self).current_node == old(self).current_node,
            final(self).selected_choice == old(self).selected_choice,
            final(self).text_fully_displayed == old(self).text_fully_displayed,
            final(self).npc_id == old(self).npc_id,
            final(self).npc_name == old(self).npc_name,
    {
        self.is_active = false;
        self.nodes.clear();
    }

    fn find_current(&self) -> (r: Option<usize>)
        ensures
            match r {
                Some(i) => first_index_of(dialogue_ids(self.nodes@), self.current_node@) == Some(i as int)
                    && i < self.nodes@.len(),
                None => first_index_of(dialogue_ids(self.nodes@), self.current_node@) is None,
            },
    {
        let mut i: usize = 0;
        while i < self.nodes.len()
            invariant
                i <= self.nodes@.len(),
                forall|j: int| 0 <= j < i ==> dialogue_ids(self.nodes@)[j] != self.current_node@,
            decreases self.nodes@.len() - i,
        {
            if self.nodes[i].id == self.current_node {
                proof {
                    lemma_first_index_found(dialogue_ids(self.nodes@), self.current_node@, i as int);
                }
                return Some(i);
            }
            i += 1;
        }
        proof {
            lemma_first_index_absent(dialogue_ids(self.nodes@), self.current_node@);
        }
        None
    }

    /// The node being shown: the first one whose id is the current node's.
    pub fn get_current_node(&self) -> (r: Option<&DialogueNode>)
        ensures
            match self.current() {
                Some(n) => r is Some && *r.unwrap() == n,
                None => r is None,
            },
    {
        match self.find_current() {
            Some(i) => Some(&self.nodes[i]),
            None => None,
        }
    }

    /// The first `chars_to_show` characters of the current node's line (all
    /// of it when it is shorter); empty when there is no current node.
    pub fn get_displayed_text(&self, chars_to_show: usize) -> (r: String)
        ensures
            r@ == match self.current() {
                Some(n) => n.text@.take(if chars_to_show < n.text@.len() { chars_to_show as int } else { n.text@.len() as int }),
                None => Seq::<char>::empty(),
            },
    {
        let mut shown = String::new();
        match self.get_current_node() {
            Some(node) => {
                let text = node.text.as_str();
                let len = text.unicode_len();
                let count = if chars_to_show < len { chars_to_show } else { len };
                let mut i: usize = 0;
                while i < count
                    invariant
                        i <= count <= len,
                        len == text@.len(),
                        shown@ == text@.take(i as int),
                    decreases count - i,
                {
                    string_push(&mut shown, text.get_char(i));
                    assert(text@.take(i as int + 1) =~= text@.take(i as int).push(text@[i as int]));
                    i += 1;
                }
                shown
            },
            None => shown,
        }
    }

    /// The choices of the current node that are offered given the quests'
    /// statuses, in order; none when there is no current node.
    pub fn get_available_choices(&self, quest_manager: &QuestManager) -> (r: Vec<DialogueChoice>)
        ensures
            r@ == match self.current() {
                Some(n) => offered_choices(quest_manager.quests@, n),
                None => Seq::<DialogueChoice>::empty(),
            },
    {
        match self.find_current() {
            Some(i) => collect_offered(quest_manager, &self.nodes[i]),
            None => Vec::new(),
        }
    }

    /// Handle one frame of input once the current line is fully shown.
    ///
    /// At an end node the conversation ends and the node's event, if any,
    /// is returned. Otherwise, with no choice on offer the conversation
    /// ends; with choices on offer MoveUp/MoveDown move the selection with
    /// wrap-around (up first), Confirm follows the selected choice to its
    /// next node (first choice selected, line not yet shown), and Cancel
    /// ends the conversation. Nothing happens while the conversation is
    /// inactive, while the line is still being typed, or when the current
    /// node does not exist.
    pub fn handle_input(&mut self, input: &InputStateResource, quest_manager: &QuestManager) -> (r: Option<String>)
        requires
            old(self).is_active && old(self).text_fully_displayed && old(self).current() is Some
                && !old(self).current().unwrap().is_end
                && offered_choices(quest_manager.quests@, old(self).current().unwrap()).len() > 0 ==> cursor_moves_defined(
                old(self).selected_choice as int,
                offered_choices(quest_manager.quests@, old(self).current().unwrap()).len() as int,
                input.pressed(InputAction::MoveUp),
                input.pressed(InputAction::MoveDown),
            ),
        ensures
            final(self).npc_id == old(self).npc_id,
            final(self).npc_name == old(self).npc_name,
            !old(self).is_active || !old(self).text_fully_displayed || old(self).current() is None ==> {
                &&& r is None
                &&& *final(self) == *old(self)
            },
            old(self).is_active && old(self).text_fully_displayed && old(self).current() is Some ==> {
                let node = old(self).current().unwrap();
                let offered = offered_choices(quest_manager.quests@, node);
                let index = cursor_after(
                    old(self).selected_choice as int,
                    offered.len() as int,
                    input.pressed(InputAction::MoveUp),
                    input.pressed(InputAction::MoveDown),
                );
                let confirmed = input.pressed(InputAction::Confirm) && 0 <= index < offered.len();
                if node.is_end {
                    &&& !final(self).is_active
                    &&& final(self).nodes@.len() == 0
                    &&& final(self).current_node == old(self).current_node
                    &&& final(self).selected_choice == old(self).selected_choice
                    &&& final(self).text_fully_displayed == old(self).text_fully_displayed
                    &&& match node.event_to_trigger {
                        Some(e) => r is Some && r.unwrap()@ == e@,
                        None => r is None,
                    }
                } else if offered.len() == 0 {
                    &&& r is None
                    &&& !final(self).is_active
                    &&& final(self).nodes@.len() == 0
                    &&& final(self).current_node == old(self).current_node
                    &&& final(self).selected_choice == old(self).selected_choice
                    &&& final(self).text_fully_displayed == old(self).text_fully_displayed
                } else {
                    &&& r is None
                    &&& final(self).selected_choice == (if confirmed { 0 } else { index })
                    &&& final(self).current_node@ == (if confirmed {
                        offered[index].next_node_id@
                    } else {
                        old(self).current_node@
                    })
                    &&& final(self).text_fully_displayed == !confirmed
                    &&& final(self).is_active == !input.pressed(InputAction::Cancel)
                    &&& final(self).nodes@ == (if input.pressed(InputAction::Cancel) {
                        Seq::<DialogueNode>::empty()
                    } else {
                        old(self).nodes@
                    })
                }
            },
    {
        if !self.is_active || !self.text_fully_displayed {
            return None;
        }
        let i = match self.find_current() {
            Some(i) => i,
            None => return None,
        };
        let is_end = self.nodes[i].is_end;
        if is_end {
            let event = match &self.nodes[i].event_to_trigger {
                Some(e) => Some(e.clone()),
                None => None,
            };
            self.end_dialogue();
            return event;
        }
        let available = collect_offered(quest_manager, &self.nodes[i]);
        if available.len() == 0 {
            self.end_dialogue();
            return None;
        }
        if input.is_action_pressed(InputAction::MoveUp) {
            self.selected_choice = if self.selected_choice == 0 {
                available.len() - 1
            } else {
                self.selected_choice - 1
            };
        }
        if input.is_action_pressed(InputAction::MoveDown) {
            self.selected_choice = (self.selected_choice + 1) % available.len();
        }
        if input.is_action_pressed(InputAction::Confirm) {
            if self.selected_choice < available.len() {
                self.current_node = available[self.selected_choice].next_node_id.clone();
                self.selected_choice = 0;
                self.text_fully_displayed = false;
            }
        }
        if input.is_action_pressed(InputAction::Cancel) {
            self.end_dialogue();
        }
        None
    }
}

/// Which choices are offered: one without a condition always is; one that
/// names a quest and a status is offered exactly when some registered quest
/// has that id and that status and no quest before it has the same id. So a
/// choice that asks for one status is never offered while the quest has
/// another.
pub proof fn law_conditional_choice_offered(quests: Seq<crate::game::quest::Quest>, c: DialogueChoice)
    ensures
        match c.required_quest_status {
            None => choice_offered(quests, c),
            Some((quest_id, status)) => choice_offered(quests, c) == exists|i: int|
                #![trigger quests[i]]
                0 <= i < quests.len() && quests[i].id@ == quest_id@ && quests[i].status == status
                    && forall|j: int| 0 <= j < i ==> (#[trigger] quests[j]).id@ != quest_id@,
        },
{
    match c.required_quest_status {
        None => {},
        Some((quest_id, status)) => {
            let ids = quest_ids(quests);
            let id = quest_id@;
            match first_index_of(ids, id) {
                Some(i) => {
                    let w = choose|w: int| is_first_index(ids, id, w);
                    assert(is_first_index(ids, id, w));
                    assert(w == i);
                    assert forall|j: int| 0 <= j < i implies (#[trigger] quests[j]).id@ != id by {
                        assert(ids[j] != id);
                    }
                    assert(quests[i].id@ == id);
                    assert forall|k: int|
                        0 <= k < quests.len() && quests[k].id@ == id
                            && (forall|j: int| 0 <= j < k ==> (#[trigger] quests[j]).id@ != id)
                        implies k == i by {
                        if k < i {
                            assert(ids[k] == id);
                        } else if k > i {
                            assert(quests[i].id@ != id);
                        }
                    }
                },
                None => {
                    assert forall|k: int|
                        0 <= k < quests.len() && quests[k].id@ == id
                        implies exists|j: int| 0 <= j < k && (#[trigger] quests[j]).id@ == id by {
                        if forall|j: int| 0 <= j < k ==> (#[trigger] quests[j]).id@ != id {
                            assert forall|j: int| 0 <= j < k implies ids[j] != id by {
                                assert(ids[j] == quests[j].id@);
                            }
                            assert(is_first_index(ids, id, k));
                        }
                    }
                },
            }
        },
    }
}

} // verus!
