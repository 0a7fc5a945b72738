//! Stack-based finite-state machine for game-screen transitions.
use vstd::prelude::*;
use crate::gamecore::types::GameState;

verus! {

/// What a [`GameStateManager`] holds: the active state, the state active
/// before the last transition, and the push-down stack of suspended states
/// (its last element is the top).
pub struct GameStateModel {
    pub current: GameState,
    pub previous: GameState,
    pub stack: Seq<GameState>,
}

impl GameStateModel {
    /// The model after `transition_to(s)`.
    pub open spec fn transitioned(self, s: GameState) -> GameStateModel {
        GameStateModel { current: s, previous: self.current, stack: self.stack }
    }

    /// The model after `push_state(s)`.
    pub open spec fn pushed(self, s: GameState) -> GameStateModel {
        GameStateModel { current: s, previous: self.previous, stack: self.stack.push(self.current) }
    }

    /// The model after `pop_state()`: the top of the stack becomes current;
    /// an empty stack leaves everything unchanged.
    pub open spec fn popped(self) -> GameStateModel {
        if self.stack.len() == 0 {
            self
        } else {
            GameStateModel {
                current: self.stack.last(),
                previous: self.previous,
                stack: self.stack.drop_last(),
            }
        }
    }
}

/// Stack-based finite-state machine for game-screen transitions.
///
/// The manager keeps track of the current and previous states, and
/// supports a push-down stack so the game can open sub-screens (such as
/// an options menu) and later pop back to the screen below.
pub struct GameStateManager {
    current_state: GameState,
    previous_state: GameState,
    state_stack: Vec<GameState>,
}

impl View for GameStateManager {
    type V = GameStateModel;

    closed spec fn view(&self) -> GameStateModel {
        GameStateModel {
            current: self.current_state,
            previous: self.previous_state,
            stack: self.state_stack@,
        }
    }
}

impl GameStateManager {
    /// Create a new manager starting in the `Boot` state with an empty stack.
    pub fn new() -> (r: Self)
        ensures
            r@ == (GameStateModel { current: GameState::Boot, previous: GameState::Boot, stack: Seq::empty() }),
    {
        Self { current_state: GameState::Boot, previous_state: GameState::Boot, state_stack: Vec::new() }
    }

    /// Replace the current state with a new one (the stack is untouched);
    /// the replaced state becomes the previous state.
    pub fn transition_to(&mut self, new_state: GameState)
        ensures
            final(self)@ == old(self)@.transitioned(new_state),
    {
        self.previous_state = self.current_state;
        self.current_state = new_state;
    }

    /// Push the current state onto the stack and enter `state`.
    pub fn push_state(&mut self, state: GameState)
        ensures
            final(self)@ == old(self)@.pushed(state),
    {
        self.state_stack.push(self.current_state);
        self.current_state = state;
    }

    /// Pop the stack, returning to the most recently pushed state; does
    /// nothing when the stack is empty.
    pub fn pop_state(&mut self)
        ensures
            final(self)@ == old(self)@.popped(),
    {
        if let Some(previous) = self.state_stack.pop() {
            self.current_state = previous;
        }
    }

    /// The active state.
    pub fn current(&self) -> (r: GameState)
        ensures
            r == self@.current,
    {
        self.current_state
    }

    /// The state that was active before the last transition.
    pub fn previous(&self) -> (r: GameState)
        ensures
            r == self@.previous,
    {
        self.previous_state
    }
}

impl Default for GameStateManager {
    fn default() -> (r: Self)
        ensures
            r@ == (GameStateModel { current: GameState::Boot, previous: GameState::Boot, stack: Seq::empty() }),
    {
        Self::new()
    }
}

/// Opening a sub-screen and closing it again leaves the machine as it was:
/// popping right after a push restores the current state, the previous
/// state and the stack.
pub proof fn law_pop_undoes_push(m: GameStateModel, s: GameState)
    ensures
        m.pushed(s).popped() == m,
{
    assert(m.pushed(s).stack.drop_last() =~= m.stack);
}

/// A transition never touches the stack, so a sub-screen opened before it
/// is still waiting underneath afterwards.
pub proof fn law_transition_keeps_stack(m: GameStateModel, s: GameState)
    ensures
        m.transitioned(s).stack == m.stack,
        m.transitioned(s).current == s,
        m.transitioned(s).previous == m.current,
{
}

} // verus!
