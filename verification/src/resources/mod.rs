//! Shared resources.
pub mod asset_manager;
pub mod input_state;
