//! What the editor's own widgets can be told.

pub mod menu;
pub mod vsplit;
