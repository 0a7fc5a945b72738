//! Entity factories and static tables.
pub mod area;
pub mod enemy;
pub mod item;
pub mod npc;
pub mod player;
