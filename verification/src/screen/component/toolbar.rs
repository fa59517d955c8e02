//! What the tool bar can ask for, and what comes back from the work that
//! it started.

use crate::file_manager::export::errors::ExportError;
use crate::file_manager::export::ExportType;
use crate::file_manager::import::load::FileContent;
use crate::file_manager::import::UploadType;
use crate::path::FsPath;
use vstd::prelude::*;

verus! {

/// What happens on the tool bar.
#[derive(Debug, PartialEq, Eq)]
pub enum Message {
    /// The document is to be compiled and shown.
    ForcePreview,
    /// The preview is to be shown or hidden.
    TogglePreview,
    /// The current file is to be saved; the flag says whether the text of
    /// the editor goes into the project first.
    SaveFile(bool),
    /// The file was saved at the path, or was not, for the reason given.
    FileSaved(Result<FsPath, String>),
    /// A new file is wanted.
    NewFile,
    /// A new project is wanted.
    NewProject,
    /// A new project from a template is wanted.
    StartFromTemplate,
    /// The template that the user picked, if any.
    TemplatePicked(Option<FsPath>),
    /// A template is to be added to the user's templates.
    AddTemplate,
    /// Another theme is wanted.
    ChangeTheme,
    /// A file is to be opened.
    OpenFile,
    /// A project is to be opened: its root, if known already, and its main
    /// file, if the list of recent projects names one.
    OpenProject(Option<FsPath>, Option<FsPath>),
    /// The project at the root was read: these are its files.
    ProjectRead { root: FsPath, main: Option<FsPath>, files: Vec<(FsPath, FileContent)> },
    /// The project is to be exported.
    Export(ExportType),
    /// The project was exported to the path, or was not.
    ProjectExported(Result<FsPath, ExportError>),
    /// The documentation is to be opened.
    Help,
    /// The package index is to be opened.
    Universe,
    /// A menu was opened.
    DropDownMenu,
    /// A file was imported, or was not, for the reason given.
    FileImported(Result<FsPath, String>),
    /// A file is to be uploaded: what may be picked, and where to look.
    Upload(UploadType, Option<FsPath>),
    /// The file that the user picked for upload. `exists` says whether the
    /// project has a file of that name already; `content` is what was read
    /// of the file once it was copied into the project.
    UploadPicked { path: FsPath, exists: bool, content: Result<FileContent, String> },
}

} // verus!
