//! The widget tree: leaf widgets, the composites that hold them, and the
//! drawing surface that they render into.

pub mod frame;
pub mod layout;
pub mod navbar;
pub mod player;
pub mod progress;
pub mod root;
pub mod router_view;
pub mod traits;
pub mod types;
pub mod widget;
