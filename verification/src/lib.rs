//! A terminal media-player front end: key bindings, logical events and a tree
//! of widgets that turns its state into draw commands.

pub mod app;
pub mod bindings;
pub mod config;
pub mod event;
pub mod keymap;
pub mod keymap_laws;
pub mod style;
pub mod text;
pub mod tui;
pub mod types;
