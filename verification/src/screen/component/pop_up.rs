//! A notice laid over the screen: a warning, an error, or a question before
//! a file is deleted.

use crate::file_manager::export::errors::append_text;
use crate::identity::VirtualId;
use vstd::prelude::*;

verus! {

/// The kinds of notice.
#[derive(Clone, Debug, PartialEq, Eq)]
pub enum PopUpType {
    /// Something the user should know.
    Warning,
    /// Something that went wrong.
    Error,
    /// Whether the file of the identifier is to be deleted.
    Confirm(VirtualId),
}

/// The word that names a kind of notice.
pub open spec fn type_text_of(pop_type: PopUpType) -> Seq<char> {
    match pop_type {
        PopUpType::Warning => "WARNING"@,
        PopUpType::Error => "ERROR"@,
        PopUpType::Confirm(_) => "CONFIRM"@,
    }
}

impl PopUpType {
    /// The word that names the kind.
    pub fn text(&self) -> (text: String)
        ensures
            text@ == type_text_of(*self),
    {
        match self {
            Self::Warning => String::from_str("WARNING"),
            Self::Error => String::from_str("ERROR"),
            Self::Confirm(_) => String::from_str("CONFIRM"),
        }
    }

    /// A copy of the kind.
    pub fn copy(&self) -> (kind: PopUpType)
        ensures
            kind is Warning <==> self is Warning,
            kind is Error <==> self is Error,
            kind is Confirm <==> self is Confirm,
            kind matches PopUpType::Confirm(id) ==> id@ == self->Confirm_0@,
    {
        match self {
            Self::Warning => Self::Warning,
            Self::Error => Self::Error,
            Self::Confirm(id) => Self::Confirm(id.copy()),
        }
    }
}

/// A notice: its kind, its title and what it has to say.
#[derive(Clone, Debug, PartialEq, Eq)]
pub struct PopUpElement {
    pop_type: PopUpType,
    title: String,
    details: String,
}

impl PopUpElement {
    /// The kind of the notice.
    pub closed spec fn spec_type(&self) -> PopUpType {
        self.pop_type
    }

    /// The title of the notice.
    pub closed spec fn spec_title(&self) -> Seq<char> {
        self.title@
    }

    /// The details of the notice.
    pub closed spec fn spec_details(&self) -> Seq<char> {
        self.details@
    }

    /// A notice of the given kind, title and details.
    pub fn new(pop_type: PopUpType, title: String, details: String) -> (element: PopUpElement)
        ensures
            element.spec_type() == pop_type,
            element.spec_title() == title@,
            element.spec_details() == details@,
    {
        Self { pop_type, title, details }
    }

    /// The kind of the notice.
    pub fn pop_type(&self) -> (pop_type: &PopUpType)
        ensures
            *pop_type == self.spec_type(),
    {
        &self.pop_type
    }

    /// The heading: the kind, a dash, the title.
    pub fn title_text(&self) -> (text: String)
        ensures
            text@ == type_text_of(self.spec_type()) + " - "@ + self.spec_title(),
    {
        let kind = self.pop_type.text();
        let head = append_text(kind.as_str(), " - ");
        append_text(head.as_str(), self.title.as_str())
    }

    /// The details as they are shown.
    pub fn details(&self) -> (text: String)
        ensures
            text@ == "=> "@ + self.spec_details(),
    {
        append_text("=> ", self.details.as_str())
    }
}

/// What happens to a notice.
#[derive(Debug, Clone, PartialEq, Eq)]
pub enum Message {
    /// A notice is to be shown.
    ShowPopUp(PopUpElement),
    /// The notice is to go away.
    HidePopUp,
    /// The user agreed to delete the file.
    DeleteFile(VirtualId),
}

} // verus!
