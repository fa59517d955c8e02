//! Files of a project: where they are, how they come in and how they go out.

pub mod export;
pub mod file;
pub mod import;
