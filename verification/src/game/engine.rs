//! Decisions the game engine takes each frame.
use vstd::prelude::*;
use crate::gamecore::types::GameState;

verus! {

/// The music track that goes with `state`: the menu theme on the title
/// screen and in menus, the field theme while exploring, the boss theme in
/// combat, and the default track otherwise.
pub open spec fn bgm_track(state: GameState) -> &'static str {
    match state {
        GameState::Title | GameState::Menu => "bgm_menu",
        GameState::Exploring => "bgm_field",
        GameState::Combat => "bgm_boss",
        _ => "bgm_default",
    }
}

/// The music track to play in `state` (see [`bgm_track`]).
pub fn bgm_for_state(state: GameState) -> (r: &'static str)
    ensures
        r == bgm_track(state),
{
    match state {
        GameState::Title | GameState::Menu => "bgm_menu",
        GameState::Exploring => "bgm_field",
        GameState::Combat => "bgm_boss",
        _ => "bgm_default",
    }
}

} // verus!
