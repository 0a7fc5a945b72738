//! Game screens, managers and the event bus.
pub mod chaos_gate;
pub mod dialogue;
pub mod character_select;
pub mod engine;
pub mod event;
pub mod network;
pub mod options_menu;
pub mod progression;
pub mod quest;
pub mod save_slots;
pub mod scene;
pub mod title_screen;
