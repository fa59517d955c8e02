//! The text of a file while it is edited.

use vstd::prelude::*;

verus! {

/// The text of a file in the editor, and whether it is on disk as it stands.
#[derive(Clone, Debug, PartialEq, Eq)]
pub struct Buffer {
    /// The text.
    pub content: String,
    /// Whether the text was saved since it last changed.
    pub is_saved: bool,
}

/// What a buffer is.
pub struct BufferView {
    pub content: Seq<char>,
    pub is_saved: bool,
}

impl View for Buffer {
    type V = BufferView;

    open spec fn view(&self) -> BufferView {
        BufferView { content: self.content@, is_saved: self.is_saved }
    }
}

impl Buffer {
    /// An empty buffer that was never saved.
    pub fn new() -> (buffer: Buffer)
        ensures
            buffer@ == (BufferView { content: Seq::empty(), is_saved: false }),
    {
        Self { content: String::new(), is_saved: false }
    }

    /// A buffer of the given text that was never saved.
    pub fn from_content(content: String) -> (buffer: Buffer)
        ensures
            buffer@ == (BufferView { content: content@, is_saved: false }),
    {
        Self { content, is_saved: false }
    }

    /// A buffer of the text that was read from a file: it is saved.
    pub fn from_path(content: String) -> (buffer: Buffer)
        ensures
            buffer@ == (BufferView { content: content@, is_saved: true }),
    {
        Self { content, is_saved: true }
    }

    /// Replaces the text.
    pub fn fill(&mut self, content: String)
        ensures
            final(self)@ == (BufferView { content: content@, is_saved: old(self).is_saved }),
    {
        self.content = content;
    }

    /// A copy of the buffer.
    pub fn copy(&self) -> (buffer: Buffer)
        ensures
            buffer@ == self@,
    {
        Self { content: self.content.clone(), is_saved: self.is_saved }
    }
}

} // verus!
