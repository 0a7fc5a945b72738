//! Fundamental types and the game-state machine.
pub mod game_state;
pub mod types;
