//! Interactive UI core for an entity-component game menu system.
//!
//! Entities are generation-checked indices into a component store. Pure
//! per-frame passes read a pointer snapshot and mutate component values:
//! hover feedback, dropdown toggling, visibility cascade, close-on-child
//! click, settings writes, and settings display sync. A layer-gated filter
//! selects what the renderer may draw.

pub mod assets;
pub mod color;
pub mod components;
pub mod display;
pub mod dropdown;
pub mod error;
pub mod factory;
pub mod game;
pub mod render;
pub mod settings;
pub mod store;
pub mod ui;

pub use color::Rgba;
