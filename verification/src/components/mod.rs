//! Entity component data and the rules attached to it.
pub mod data_drain;
pub mod enemy;
pub mod inventory;
pub mod party;
pub mod render;
pub mod skill;
pub mod stats;
