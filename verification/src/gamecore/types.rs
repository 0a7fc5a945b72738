//! Game states, character classes, elements and status effects.
use vstd::prelude::*;

verus! {

/// Top-level states the game can be in.
///
/// The [`GameStateManager`](super::game_state::GameStateManager) drives
/// transitions between these states and keeps a push-down stack of them.
#[derive(Debug, Clone, Copy, PartialEq, Eq, Structural)]
pub enum GameState {
    /// Engine startup: assets are being registered.
    Boot,
    /// Title / main menu screen.
    Title,
    /// Connecting to the simulated network server.
    Connecting,
    /// Character creation and class selection.
    CharacterSelect,
    /// Loading a save or moving between areas.
    Loading,
    /// Free-roam exploration in a field, town, or dungeon.
    Exploring,
    /// Combat encounter.
    Combat,
    /// In-game menu (options, inventory, party).
    Menu,
    /// Scripted cutscene / dialogue event.
    Cutscene,
    /// Network connection lost.
    Disconnected,
}

/// Playable character classes, each with a distinct stat profile.
#[derive(Debug, Clone, Copy, PartialEq, Eq, Structural)]
pub enum Class {
    TwinBlade,
    HeavyBlade,
    LongArm,
    Wavemaster,
}

/// Elemental affinity for skills and damage typing.
#[derive(Debug, Clone, Copy, PartialEq, Eq, Structural)]
pub enum Element {
    Fire,
    Water,
    Wind,
    Earth,
    Light,
    Dark,
    /// No element (physical / neutral damage).
    Null,
}

/// Temporary status effects that can be applied during combat.
#[derive(Debug, Clone, Copy, PartialEq, Eq, Structural)]
pub enum StatusEffect {
    /// Deals damage over time.
    Poison,
    /// Prevents action for a duration.
    Paralysis,
    /// Target cannot act until awakened.
    Sleep,
    /// Target attacks randomly.
    Confusion,
    /// Increased attack, lowered defence.
    Berserk,
    /// Extracts data from enemies.
    DataDrain,
}

} // verus!
