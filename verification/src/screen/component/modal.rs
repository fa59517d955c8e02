//! The two dialogs that ask for a name: for a new file and for a new
//! project. A dialog decides; reading the disk and writing to it is left to
//! whoever shows the dialog, who says what was found.

use crate::file_manager::export::errors::append_text;
use crate::path::{join_of, path_of, FsPath, PathView};
use vstd::prelude::*;

verus! {

/// What happens to a dialog.
#[derive(Debug, Clone, PartialEq, Eq)]
pub enum Message {
    /// The user asks for the file to be created.
    FileCreate,
    /// The name of the file was typed.
    FileNamed(String),
    /// The user asks for the project to be created.
    ProjectCreate,
    /// The name of the project was typed.
    ProjectName(String),
    /// The directory of the project was typed or picked.
    ProjectPath(String),
    /// The user wants to pick the directory.
    OpenFileDialog,
    /// The project was created on disk at the path.
    ProjectCreated(FsPath),
    /// The project could not be created, for the reason given.
    ProjectFailed(String),
    /// The user gives up.
    Cancel,
}

/// What a dialog asks for after a message.
#[derive(Debug, Clone, PartialEq, Eq)]
pub enum Task {
    /// Nothing.
    Idle,
    /// The file at the path is to be created and taken into the project.
    CreateFile(FsPath),
    /// The user is to pick a directory, which comes back as `ProjectPath`.
    PickFolder,
    /// The project is to be created on disk as `create_project` plans it;
    /// the outcome comes back as `ProjectCreated` or `ProjectFailed`.
    CreateProject,
    /// The project at the path is to be opened.
    OpenProject(FsPath),
}

/// The dialog for a new file.
#[derive(Clone, Debug, PartialEq, Eq)]
pub struct FileModal {
    /// The name typed so far.
    pub file_name: String,
    /// What is wrong with the name, if anything.
    pub warning_text: String,
    /// The root of the project in which the file is created.
    pub root: FsPath,
    /// Whether the dialog is shown.
    pub visible: bool,
}

/// The extension that a new file gets.
pub open spec fn new_file_suffix() -> Seq<char> {
    ".typ"@
}

/// The path of the file that the dialog would create.
pub open spec fn file_target_of(root: PathView, name: Seq<char>) -> PathView {
    join_of(root, path_of(name + new_file_suffix()))
}

/// What a message does to the dialog for a new file. `exists` says whether
/// there is something on disk at the path that the dialog would create. A
/// file is created only under a name that is not empty and not taken.
pub open spec fn file_modal_step(
    before: FileModal,
    message: Message,
    exists: bool,
    after: FileModal,
    task: Task,
) -> bool {
    &&& after.root == before.root
    &&& match message {
        Message::FileCreate => {
            &&& after.file_name == before.file_name
            &&& if before.file_name@.len() == 0 {
                &&& task == Task::Idle
                &&& after.warning_text@ == "No file name"@
                &&& after.visible == before.visible
            } else if exists {
                &&& task == Task::Idle
                &&& after.warning_text@ == "File already exists!"@
                &&& after.visible == before.visible
            } else {
                &&& task matches Task::CreateFile(path)
                &&& path@ == file_target_of(before.root@, before.file_name@)
                &&& after.warning_text == before.warning_text
                &&& !after.visible
            }
        },
        Message::FileNamed(name) => {
            &&& task == Task::Idle
            &&& after.file_name == name
            &&& after.warning_text == before.warning_text
            &&& after.visible == before.visible
        },
        Message::Cancel => {
            &&& task == Task::Idle
            &&& after.file_name@ == Seq::<char>::empty()
            &&& after.warning_text@ == Seq::<char>::empty()
            &&& !after.visible
        },
        _ => task == Task::Idle && after == before,
    }
}

impl FileModal {
    /// A hidden dialog for files of the project at `root`.
    pub fn new(root: FsPath) -> (modal: FileModal)
        ensures
            modal.file_name@ == Seq::<char>::empty(),
            modal.warning_text@ == Seq::<char>::empty(),
            modal.root == root,
            !modal.visible,
    {
        Self { file_name: String::new(), warning_text: String::new(), root, visible: false }
    }

    /// Hides the dialog.
    pub fn dismiss(&mut self)
        ensures
            *final(self) == (FileModal { visible: false, ..*old(self) }),
    {
        self.visible = false;
    }

    /// Shows the dialog.
    pub fn show(&mut self)
        ensures
            *final(self) == (FileModal { visible: true, ..*old(self) }),
    {
        self.visible = true;
    }

    /// The path of the file that `FileCreate` would create: the name typed,
    /// with the extension of a source, in the root of the project.
    pub fn target(&self) -> (path: FsPath)
        ensures
            path@ == file_target_of(self.root@, self.file_name@),
    {
        let new_name = append_text(self.file_name.as_str(), ".typ");
        self.root.join_name(new_name.as_str())
    }

    /// Takes a message. `exists` says whether there is something on disk at
    /// `target()`.
    pub fn update(&mut self, message: Message, exists: bool) -> (task: Task)
        ensures
            file_modal_step(*old(self), message, exists, *final(self), task),
    {
        match message {
            Message::FileCreate => {
                if self.file_name.as_str().unicode_len() != 0 {
                    let path = self.target();
                    if !exists {
                        self.dismiss();
                        return Task::CreateFile(path);
                    } else {
                        self.warning_text = String::from_str("File already exists!");
                    }
                } else {
                    self.warning_text = String::from_str("No file name");
                }
            },
            Message::FileNamed(name) => {
                self.file_name = name;
            },
            Message::Cancel => {
                self.file_name = String::new();
                self.warning_text = String::new();
                self.dismiss();
            },
            _ => {},
        }
        Task::Idle
    }
}

/// The dialog for a new project.
#[derive(Clone, Debug, PartialEq, Eq)]
pub struct ProjectModal {
    /// The name of the project.
    pub project_name: String,
    /// The directory in which the project is created.
    pub project_path: String,
    /// What is wrong with name or directory, if anything.
    pub warning_text: String,
    /// Whether the dialog is shown.
    pub visible: bool,
    /// A template to start the project from.
    pub template: Option<FsPath>,
}

/// Why a project is not created.
#[derive(Clone, Copy, Debug, PartialEq, Eq, Structural)]
pub enum CreateError {
    /// No directory was given.
    InvalidInput,
    /// The directory of the project is there already.
    AlreadyExists,
}

/// What creating a project puts on disk.
#[derive(Clone, Debug, PartialEq, Eq)]
pub struct ProjectPlan {
    /// The directory of the project, made with all that leads to it.
    pub directory: FsPath,
    /// The empty main file.
    pub main_file: FsPath,
    /// The template to copy, and where to.
    pub template: Option<(FsPath, FsPath)>,
}

/// The directory of the project that the dialog would create.
pub open spec fn project_target_of(path: Seq<char>, name: Seq<char>) -> PathView {
    join_of(path_of(path), path_of(name))
}

/// What a message does to the dialog for a new project. `exists` says
/// whether there is something on disk at the path that the dialog would
/// create or, with `ProjectCreated`, at the path that was created. A project
/// is created only under a name and in a directory that are not empty, at a
/// rooted path that is not taken.
pub open spec fn project_modal_step(
    before: ProjectModal,
    message: Message,
    exists: bool,
    after: ProjectModal,
    task: Task,
) -> bool {
    match message {
        Message::ProjectName(name) => task == Task::Idle && after == (ProjectModal {
            project_name: name,
            ..before
        }),
        Message::ProjectPath(path) => task == Task::Idle && after == (ProjectModal {
            project_path: path,
            ..before
        }),
        Message::Cancel => {
            &&& task == Task::Idle
            &&& after.project_name@ == Seq::<char>::empty()
            &&& after.project_path@ == Seq::<char>::empty()
            &&& after.warning_text@ == Seq::<char>::empty()
            &&& !after.visible
            &&& after.template is None
        },
        Message::OpenFileDialog => task == Task::PickFolder && after == before,
        Message::ProjectCreate => {
            &&& after.project_name == before.project_name
            &&& after.project_path == before.project_path
            &&& after.visible == before.visible
            &&& after.template == before.template
            &&& if before.project_name@.len() == 0 {
                task == Task::Idle && after.warning_text@ == "No project name"@
            } else if before.project_path@.len() == 0 {
                task == Task::Idle && after.warning_text@ == "No project path"@
            } else if !project_target_of(
                before.project_path@,
                before.project_name@,
            ).absolute {
                task == Task::Idle && after.warning_text@ == "Path does not exist"@
            } else if exists {
                task == Task::Idle && after.warning_text@
                    == "Project already exists"@
            } else {
                task == Task::CreateProject && after.warning_text == before.warning_text
            }
        },
        Message::ProjectCreated(path) => {
            &&& after.project_name == before.project_name
            &&& after.project_path == before.project_path
            &&& if exists {
                &&& task == Task::OpenProject(path)
                &&& !after.visible
                &&& after.template is None
                &&& after.warning_text == before.warning_text
            } else {
                &&& task == Task::Idle
                &&& after.warning_text@ == "Project not found"@
                &&& after.visible == before.visible
                &&& after.template == before.template
            }
        },
        Message::ProjectFailed(reason) => {
            &&& task == Task::Idle
            &&& after.project_name == before.project_name
            &&& after.project_path == before.project_path
            &&& after.warning_text@ == "Error creating project: "@ + reason@
            &&& after.visible == before.visible
            &&& after.template == before.template
        },
        _ => task == Task::Idle && after == before,
    }
}

impl ProjectModal {
    /// A hidden dialog with nothing typed.
    pub fn new() -> (modal: ProjectModal)
        ensures
            modal.project_name@ == Seq::<char>::empty(),
            modal.project_path@ == Seq::<char>::empty(),
            modal.warning_text@ == Seq::<char>::empty(),
            !modal.visible,
            modal.template is None,
    {
        Self {
            project_name: String::new(),
            project_path: String::new(),
            warning_text: String::new(),
            visible: false,
            template: None,
        }
    }

    /// Hides the dialog and forgets the template.
    pub fn dismiss(&mut self)
        ensures
            *final(self) == (ProjectModal { visible: false, template: None, ..*old(self) }),
    {
        self.visible = false;
        self.template = None;
    }

    /// Shows the dialog.
    pub fn show(&mut self)
        ensures
            *final(self) == (ProjectModal { visible: true, ..*old(self) }),
    {
        self.visible = true;
    }

    /// Asks for the project to start from the template at `template_path`.
    pub fn require_template(&mut self, template_path: FsPath)
        ensures
            *final(self) == (ProjectModal { template: Some(template_path), ..*old(self) }),
    {
        self.template = Some(template_path);
    }

    /// The directory of the project that `ProjectCreate` would create: the
    /// name typed, in the directory typed.
    pub fn target(&self) -> (path: FsPath)
        ensures
            path@ == project_target_of(self.project_path@, self.project_name@),
    {
        FsPath::parse(self.project_path.as_str()).join_name(self.project_name.as_str())
    }

    /// Plans the creation of the project. `exists` says whether there is
    /// something on disk at `target()`.
    pub fn create_project(&self, exists: bool) -> (plan: Result<ProjectPlan, CreateError>)
        ensures
            self.project_path@.len() == 0 ==> plan == Err::<ProjectPlan, CreateError>(
                CreateError::InvalidInput,
            ),
            self.project_path@.len() != 0 && exists ==> plan == Err::<ProjectPlan, CreateError>(
                CreateError::AlreadyExists,
            ),
            self.project_path@.len() != 0 && !exists ==> {
                let target = project_target_of(self.project_path@, self.project_name@);
                &&& plan matches Ok(p)
                &&& p.directory@ == target
                &&& p.main_file@ == join_of(target, path_of("main.typ"@))
                &&& match self.template {
                    Some(from) => p.template matches Some(pair) && pair.0@ == from@ && pair.1@
                        == join_of(target, path_of("template.typ"@)),
                    None => p.template is None,
                }
            },
    {
        if self.project_path.as_str().unicode_len() == 0 {
            return Err(CreateError::InvalidInput);
        }
        let path = self.target();
        if exists {
            return Err(CreateError::AlreadyExists);
        }
        let main_file = path.join_name("main.typ");
        let template = match &self.template {
            Some(from) => Some((from.copy(), path.join_name("template.typ"))),
            None => None,
        };
        Ok(ProjectPlan { directory: path, main_file, template })
    }

    /// Takes a message. `exists` says whether there is something on disk at
    /// `target()`, or, with `ProjectCreated`, at the path that was created.
    pub fn update(&mut self, message: Message, exists: bool) -> (task: Task)
        ensures
            project_modal_step(*old(self), message, exists, *final(self), task),
    {
        match message {
            Message::ProjectName(name) => {
                self.project_name = name;
            },
            Message::ProjectPath(path) => {
                self.project_path = path;
            },
            Message::Cancel => {
                self.project_path = String::new();
                self.project_name = String::new();
                self.warning_text = String::new();
                self.dismiss();
            },
            Message::OpenFileDialog => {
                return Task::PickFolder;
            },
            Message::ProjectCreate => {
                if self.project_name.as_str().unicode_len() != 0 {
                    if self.project_path.as_str().unicode_len() != 0 {
                        let new_project_path = self.target();
                        if new_project_path.is_absolute() {
                            if exists {
                                self.warning_text = String::from_str("Project already exists");
                            } else {
                                return Task::CreateProject;
                            }
                        } else {
                            self.warning_text = String::from_str("Path does not exist");
                        }
                    } else {
                        self.warning_text = String::from_str("No project path");
                    }
                } else {
                    self.warning_text = String::from_str("No project name");
                }
            },
            Message::ProjectCreated(path) => {
                if exists {
                    self.dismiss();
                    return Task::OpenProject(path);
                } else {
                    self.warning_text = String::from_str("Project not found");
                }
            },
            Message::ProjectFailed(reason) => {
                self.warning_text = append_text("Error creating project: ", reason.as_str());
            },
            _ => {},
        }
        Task::Idle
    }
}

} // verus!
