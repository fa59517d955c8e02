//! What the user may set.

pub mod config;
