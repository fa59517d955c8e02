//! The configuration of the editor.

pub mod appearance;
pub mod serialization;
