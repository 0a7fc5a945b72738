//! Shambala: the rules of a story-driven action RPG inspired by the .hack
//! universe, with their contracts.
//!
//! - `gamecore`: game states, classes, elements, and the stack-based state machine.
//! - `components`: stats, inventory, party and the enumerations attached to entities.
//! - `entities`: factories and static tables for enemies, items, NPCs and areas.
//! - `game`: events, quests, scenes, menus and the character-selection screen.
//! - `render`: the UI element registry and text/tile records.
//! - `resources`: the asset registry and its loading queue.
pub mod components;
pub mod gamecore;
pub mod entities;
pub mod game;
pub mod render;
pub mod resources;
mod text;
