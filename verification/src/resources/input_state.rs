//! Per-frame input: which game actions are pressed this frame or held.
use vstd::prelude::*;

verus! {

/// The game actions the player can trigger.
#[derive(Debug, Clone, Copy, PartialEq, Eq, Hash, Structural)]
pub enum InputAction {
    MoveUp,
    MoveDown,
    MoveLeft,
    MoveRight,
    Confirm,
    Cancel,
    Attack,
}

/// How an action is being triggered: pressed this frame, or held down
/// across frames.
#[derive(Debug, Clone, Copy, PartialEq, Eq, Structural)]
pub enum InputState {
    Pressed,
    Held,
}

/// The state of an action after the end of a frame: held stays held,
/// anything else is forgotten.
pub open spec fn frame_cleared(s: Option<InputState>) -> Option<InputState> {
    if s == Some(InputState::Held) { Some(InputState::Held) } else { None }
}

/// The slot of `a` in the action table.
pub open spec fn action_slot(a: InputAction) -> int {
    match a {
        InputAction::MoveUp => 0,
        InputAction::MoveDown => 1,
        InputAction::MoveLeft => 2,
        InputAction::MoveRight => 3,
        InputAction::Confirm => 4,
        InputAction::Cancel => 5,
        InputAction::Attack => 6,
    }
}

fn slot_of(a: InputAction) -> (r: usize)
    ensures
        r == action_slot(a),
        r < 7,
{
    match a {
        InputAction::MoveUp => 0,
        InputAction::MoveDown => 1,
        InputAction::MoveLeft => 2,
        InputAction::MoveRight => 3,
        InputAction::Confirm => 4,
        InputAction::Cancel => 5,
        InputAction::Attack => 6,
    }
}

/// The input of one frame: the state of every action that is active (slot
/// [`action_slot`] of `actions`), and
/// whether the mouse button is down. Pointer coordinates are tracked by the
/// windowing layer of the application.
#[derive(Debug, Clone)]
pub struct InputStateResource {
    pub actions: [Option<InputState>; 7],
    pub mouse_pressed: bool,
}

impl InputStateResource {
    /// The state of action `a`, if it is active.
    pub open spec fn state_of(&self, a: InputAction) -> Option<InputState> {
        self.actions@[action_slot(a)]
    }

    /// Whether action `a` was pressed this frame.
    pub open spec fn pressed(&self, a: InputAction) -> bool {
        self.state_of(a) == Some(InputState::Pressed)
    }

    /// No action active and the mouse button up.
    pub fn new() -> (r: Self)
        ensures
            forall|a: InputAction| r.state_of(a) is None,
            !r.mouse_pressed,
    {
        Self { actions: [None, None, None, None, None, None, None], mouse_pressed: false }
    }

    /// Whether action `action` was pressed this frame.
    pub fn is_action_pressed(&self, action: InputAction) -> (r: bool)
        ensures
            r == self.pressed(action),
    {
        match self.actions[slot_of(action)] {
            Some(InputState::Pressed) => true,
            _ => false,
        }
    }

    /// Whether action `action` is held down.
    pub fn is_action_held(&self, action: InputAction) -> (r: bool)
        ensures
            r == (self.state_of(action) == Some(InputState::Held)),
    {
        match self.actions[slot_of(action)] {
            Some(InputState::Held) => true,
            _ => false,
        }
    }

    /// Record that `action` is now in `state`; every other action keeps its state.
    pub fn set_action(&mut self, action: InputAction, state: InputState)
        ensures
            final(self).state_of(action) == Some(state),
            forall|b: InputAction| b != action ==> final(self).state_of(b) == old(self).state_of(b),
            final(self).mouse_pressed == old(self).mouse_pressed,
    {
        let slot = slot_of(action);
        self.actions.set(slot, Some(state));
    }

    /// End of frame: one-frame presses are forgotten, held actions stay held
    /// (see [`frame_cleared`]).
    pub fn clear_frame(&mut self)
        ensures
            final(self).actions@ == old(self).actions@.map_values(|a: Option<InputState>| frame_cleared(a)),
            forall|b: InputAction| #[trigger] final(self).state_of(b) == frame_cleared(old(self).state_of(b)),
            final(self).mouse_pressed == old(self).mouse_pressed,
    {
        let ghost start = self.actions@;
        let mut i: usize = 0;
        while i < 7
            invariant
                i <= 7,
                forall|k: int| 0 <= k < i ==> self.actions@[k] == (if old(self).actions@[k] == Some(InputState::Held) {
                    Some(InputState::Held)
                } else {
                    None
                }),
                forall|k: int| i <= k < 7 ==> self.actions@[k] == old(self).actions@[k],
                self.mouse_pressed == old(self).mouse_pressed,
            decreases 7 - i,
        {
            let kept = match self.actions[i] {
                Some(InputState::Held) => Some(InputState::Held),
                _ => None,
            };
            self.actions.set(i, kept);
            i += 1;
        }
        assert(self.actions@ =~= start.map_values(|a: Option<InputState>| frame_cleared(a)));
    }
}

/// End-of-frame clearing twice is the same as once: every action state is
/// cleared as it was by the first clearing.
pub proof fn law_clear_frame_idempotent(actions: Seq<Option<InputState>>)
    ensures
        actions.map_values(|a: Option<InputState>| frame_cleared(a)).map_values(|a: Option<InputState>| frame_cleared(a))
            == actions.map_values(|a: Option<InputState>| frame_cleared(a)),
{
    let once = actions.map_values(|a: Option<InputState>| frame_cleared(a));
    assert(once.map_values(|a: Option<InputState>| frame_cleared(a)) =~= once);
}

} // verus!
