//! The project world and the incremental preview of a document editor:
//! paths and identifiers, the in-memory store handed to the compiler, and the
//! page cache that renders only what is in view.

pub mod data;
pub mod editor;
pub mod file_manager;
pub mod id_map;
pub mod identity;
pub mod order;
pub mod path;
pub mod screen;
pub mod text;
pub mod widgets;
pub mod world;
