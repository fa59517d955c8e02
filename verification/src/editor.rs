//! What the text editor needs decided for it.

pub mod autocomplete;
pub mod buffer;
