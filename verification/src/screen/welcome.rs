//! The screen shown at start: the projects opened lately, and the dialog for
//! a new project.

use crate::file_manager::file::{
    cache_views, env_path_of, get_recent_paths, get_templates_path, recent_of, Environment,
    ProjectCache,
};
use crate::path::{join_of, path_of, FsPath, PathView};
use crate::screen::component::modal;
use crate::screen::component::modal::{ProjectModal, ProjectPlan};
use crate::screen::component::toolbar;
use vstd::prelude::*;

verus! {

/// What happens on the welcome screen.
#[derive(Debug, PartialEq, Eq)]
pub enum Message {
    /// Something happened on the tool bar.
    ToolBar(toolbar::Message),
    /// Something happened in the dialog for a new project; the flag says
    /// whether the project that it would create, or has created, is there.
    ProjectModal(modal::Message, bool),
}

/// What the welcome screen asks for after a message.
#[derive(Debug, PartialEq, Eq)]
pub enum Task {
    /// Nothing.
    Idle,
    /// The message is to be sent to the screen.
    Done(Message),
    /// The user is to pick a template in the directory; the choice comes
    /// back as `TemplatePicked`.
    PickTemplate(FsPath),
    /// The address is to be opened in the browser.
    OpenUrl(String),
    /// The user is to pick a directory for the new project; the choice comes
    /// back to the dialog as `ProjectPath`.
    PickFolder,
    /// The project is to be created on disk as planned; the outcome comes
    /// back to the dialog as `ProjectCreated` or `ProjectFailed`.
    CreateProject(ProjectPlan),
}

/// The welcome screen.
#[derive(Clone, Debug, PartialEq, Eq)]
pub struct Welcome {
    /// The projects opened lately, the latest first.
    pub recent_files: Vec<ProjectCache>,
    /// The dialog for a new project.
    pub project_modal: ProjectModal,
    /// The editor's own directory, as it was found.
    pub environment: Environment,
}

/// The directory in which templates are looked for: the templates of the
/// environment, or the root of the file system where there are none.
pub open spec fn templates_dir_of(environment: Environment) -> PathView {
    match env_path_of(environment@.root, environment@.has_templates, "templates"@) {
        Some(dir) => dir,
        None => path_of("/"@),
    }
}

/// Whether the screen's task carries on what the dialog asked for.
pub open spec fn carries(dialog: ProjectModal, inner: modal::Task, task: Task) -> bool {
    match inner {
        modal::Task::PickFolder => task is PickFolder,
        modal::Task::CreateProject => {
            &&& task matches Task::CreateProject(plan)
            &&& plan.directory@ == modal::project_target_of(
                dialog.project_path@,
                dialog.project_name@,
            )
            &&& plan.main_file@ == join_of(plan.directory@, path_of("main.typ"@))
            &&& match dialog.template {
                Some(from) => plan.template matches Some(pair) && pair.0@ == from@ && pair.1@
                    == join_of(plan.directory@, path_of("template.typ"@)),
                None => plan.template is None,
            }
        },
        modal::Task::OpenProject(path) => {
            &&& task matches Task::Done(
                Message::ToolBar(toolbar::Message::OpenProject(Some(root), None)),
            )
            &&& root == path
        },
        _ => task is Idle,
    }
}

/// What a message does to the welcome screen, and what the screen asks for.
pub open spec fn step(before: Welcome, message: Message, after: Welcome, task: Task) -> bool {
    match message {
        Message::ToolBar(toolbar::Message::StartFromTemplate) => {
            &&& after == before
            &&& task matches Task::PickTemplate(dir)
            &&& dir@ == templates_dir_of(before.environment)
        },
        Message::ToolBar(toolbar::Message::TemplatePicked(Some(template))) => {
            &&& after == (Welcome {
                project_modal: ProjectModal { template: Some(template), ..before.project_modal },
                ..before
            })
            &&& task matches Task::Done(Message::ToolBar(toolbar::Message::NewProject))
        },
        Message::ToolBar(toolbar::Message::NewProject) => task is Idle && after == (Welcome {
            project_modal: ProjectModal { visible: true, ..before.project_modal },
            ..before
        }),
        Message::ToolBar(toolbar::Message::Help) => {
            &&& after == before
            &&& task matches Task::OpenUrl(url)
            &&& url@ == "https://typst.app/docs/"@
        },
        Message::ToolBar(toolbar::Message::Universe) => {
            &&& after == before
            &&& task matches Task::OpenUrl(url)
            &&& url@ == "https://typst.app/universe/"@
        },
        Message::ToolBar(_) => after == before && task is Idle,
        Message::ProjectModal(inner, exists) => {
            &&& after == (Welcome { project_modal: after.project_modal, ..before })
            &&& exists|asked: modal::Task|
                #![trigger carries(after.project_modal, asked, task)]
                modal::project_modal_step(
                    before.project_modal,
                    inner,
                    exists,
                    after.project_modal,
                    asked,
                ) && carries(after.project_modal, asked, task)
        },
    }
}

impl Welcome {
    /// The welcome screen for the list of recent projects that `contents`
    /// spells, with its dialog hidden.
    pub fn new(contents: &str, environment: Environment) -> (welcome: Welcome)
        ensures
            cache_views(welcome.recent_files@) == recent_of(contents@),
            welcome.environment == environment,
            !welcome.project_modal.visible,
            welcome.project_modal.template is None,
            welcome.project_modal.project_name@.len() == 0,
            welcome.project_modal.project_path@.len() == 0,
            welcome.project_modal.warning_text@.len() == 0,
    {
        Self {
            recent_files: get_recent_paths(contents),
            project_modal: ProjectModal::new(),
            environment,
        }
    }

    /// Takes a message and says what is to happen next.
    pub fn update(&mut self, message: Message) -> (task: Task)
        ensures
            step(*old(self), message, *final(self), task),
    {
        match message {
            Message::ToolBar(message) => match message {
                toolbar::Message::StartFromTemplate => {
                    let dir = match get_templates_path(&self.environment) {
                        Some(dir) => dir,
                        None => FsPath::parse("/"),
                    };
                    Task::PickTemplate(dir)
                },
                toolbar::Message::TemplatePicked(Some(template)) => {
                    self.project_modal.require_template(template);
                    Task::Done(Message::ToolBar(toolbar::Message::NewProject))
                },
                toolbar::Message::NewProject => {
                    self.project_modal.show();
                    Task::Idle
                },
                toolbar::Message::Help => Task::OpenUrl(String::from_str("https://typst.app/docs/")),
                toolbar::Message::Universe => Task::OpenUrl(
                    String::from_str("https://typst.app/universe/"),
                ),
                _ => Task::Idle,
            },
            Message::ProjectModal(message, exists) => {
                let asked = self.project_modal.update(message, exists);
                let task = match asked {
                    modal::Task::PickFolder => Task::PickFolder,
                    modal::Task::CreateProject => {
                        match self.project_modal.create_project(false) {
                            Ok(plan) => Task::CreateProject(plan),
                            Err(_) => Task::Idle,
                        }
                    },
                    modal::Task::OpenProject(path) => Task::Done(
                        Message::ToolBar(toolbar::Message::OpenProject(Some(path), None)),
                    ),
                    _ => Task::Idle,
                };
                assert(carries(self.project_modal, asked, task));
                task
            },
        }
    }
}

} // verus!
