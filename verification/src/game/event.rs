//! Events exchanged between game systems, and the bounded bus carrying them.
use vstd::prelude::*;
use crate::text::str_eq;

verus! {

/// Something that happened in the game.
#[derive(Debug, Clone)]
pub enum GameEvent {
    PlayerDamaged { amount: u32, source: String },
    PlayerHealed { amount: u32, source: String },
    EnemyDefeated { enemy_id: String, exp_reward: u64 },
    LevelUp { new_level: u32 },
    ItemObtained { item_id: String, quantity: u32 },
    DataDrainExecuted { success: bool, target: String },
    AreaTransition { from: String, to: String },
    PartyMemberJoined { name: String },
    PartyMemberLeft { name: String },
    DialogueStarted { npc_id: String },
    DialogueEnded { npc_id: String },
    QuestUpdated { quest_id: String, status: QuestStatus },
    GameSaved,
    ConnectionLost,
}

/// The life cycle of a quest.
#[derive(Debug, Clone, Copy, PartialEq, Eq, Structural)]
pub enum QuestStatus {
    Started,
    InProgress,
    Completed,
    Failed,
}

/// The name under which [`EventBus::has_event`] recognises an event, for the
/// five kinds it can be asked about; `None` for the others.
pub open spec fn event_tag(e: GameEvent) -> Option<Seq<char>> {
    match e {
        GameEvent::PlayerDamaged { .. } => Some("PlayerDamaged"@),
        GameEvent::EnemyDefeated { .. } => Some("EnemyDefeated"@),
        GameEvent::LevelUp { .. } => Some("LevelUp"@),
        GameEvent::DataDrainExecuted { .. } => Some("DataDrainExecuted"@),
        GameEvent::AreaTransition { .. } => Some("AreaTransition"@),
        _ => None,
    }
}

/// The queue after emitting `e` into `events` with room for `max`: when
/// full, the oldest event is dropped first.
pub open spec fn emitted(events: Seq<GameEvent>, max: usize, e: GameEvent) -> Seq<GameEvent> {
    if events.len() >= max { events.drop_first().push(e) } else { events.push(e) }
}

/// A queue of pending events that keeps at most `max_events` of the most
/// recent ones.
pub struct EventBus {
    pub events: Vec<GameEvent>,
    pub max_events: usize,
}

/// Whether `e` is an event of the kind named `name`.
fn tag_matches(e: &GameEvent, name: &str) -> (r: bool)
    ensures
        r == (event_tag(*e) == Some(name@)),
{
    match e {
        GameEvent::PlayerDamaged { .. } => str_eq(name, "PlayerDamaged"),
        GameEvent::EnemyDefeated { .. } => str_eq(name, "EnemyDefeated"),
        GameEvent::LevelUp { .. } => str_eq(name, "LevelUp"),
        GameEvent::DataDrainExecuted { .. } => str_eq(name, "DataDrainExecuted"),
        GameEvent::AreaTransition { .. } => str_eq(name, "AreaTransition"),
        _ => false,
    }
}

impl EventBus {
    /// An empty bus keeping at most `max_events` events.
    pub fn new(max_events: usize) -> (r: Self)
        ensures
            r.events@.len() == 0,
            r.max_events == max_events,
    {
        Self { events: Vec::new(), max_events }
    }

    /// Queue `event`; when the bus already holds `max_events` events the
    /// oldest one is dropped first.
    pub fn emit(&mut self, event: GameEvent)
        requires
            old(self).max_events > 0 || old(self).events@.len() > 0,
        ensures
            final(self).events@ == emitted(old(self).events@, old(self).max_events, event),
            final(self).max_events == old(self).max_events,
    {
        if self.events.len() >= self.max_events {
            self.events.remove(0);
        }
        self.events.push(event);
        assert(self.events@ =~= emitted(old(self).events@, old(self).max_events, event));
    }

    /// Hand out every queued event, oldest first, leaving the bus empty.
    pub fn drain(&mut self) -> (r: Vec<GameEvent>)
        ensures
            r@ == old(self).events@,
            final(self).events@.len() == 0,
            final(self).max_events == old(self).max_events,
    {
        let mut taken: Vec<GameEvent> = Vec::new();
        std::mem::swap(&mut taken, &mut self.events);
        taken
    }

    /// Whether an event of the kind named `event_type` is queued; only
    /// "PlayerDamaged", "EnemyDefeated", "LevelUp", "DataDrainExecuted" and
    /// "AreaTransition" are recognised.
    pub fn has_event(&self, event_type: &str) -> (r: bool)
        ensures
            r == exists|i: int| 0 <= i < self.events@.len() && event_tag(#[trigger] self.events@[i]) == Some(event_type@),
    {
        let mut i: usize = 0;
        while i < self.events.len()
            invariant
                i <= self.events@.len(),
                forall|j: int| 0 <= j < i ==> event_tag(#[trigger] self.events@[j]) != Some(event_type@),
            decreases self.events@.len() - i,
        {
            if tag_matches(&self.events[i], event_type) {
                return true;
            }
            i += 1;
        }
        false
    }

    /// Drop every queued event.
    pub fn clear(&mut self)
        ensures
            final(self).events@.len() == 0,
            final(self).max_events == old(self).max_events,
    {
        self.events.clear();
    }
}

/// The bus never holds more than its capacity: emitting into a bus within
/// its bound keeps it within its bound.
pub proof fn law_emit_keeps_bound(events: Seq<GameEvent>, max: usize, e: GameEvent)
    requires
        max > 0,
        events.len() <= max,
    ensures
        emitted(events, max, e).len() <= max,
        emitted(events, max, e).last() == e,
{
}

/// Emitting into a bus with spare room keeps every queued event and
/// appends the new one.
pub proof fn law_emit_with_room_appends(events: Seq<GameEvent>, max: usize, e: GameEvent)
    requires
        events.len() < max,
    ensures
        emitted(events, max, e) == events.push(e),
{
}

} // verus!
