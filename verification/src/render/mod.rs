//! Rendering records: UI elements, text layout settings and tiles.
pub mod atlas;
pub mod sprite;
pub mod text;
pub mod texture;
pub mod tilemap;
pub mod ui_render;
