use tide::data::config::appearance::default_pairs;
use tide::editor::autocomplete::Completion;
use tide::editor::buffer::Buffer;
use tide::file_manager::export::errors::ExportError;
use tide::file_manager::export::ExportType;
use tide::file_manager::file::{Environment, ProjectCache};
use tide::file_manager::import::load::FileContent;
use tide::file_manager::import::UploadType;
use tide::identity::VirtualId;
use tide::path::FsPath;
use tide::screen::component::debug::DebugZone;
use tide::screen::component::file_tree::DirListing;
use tide::screen::component::pop_up::{PopUpElement, PopUpType};
use tide::screen::component::preview::{PageSize, Task as PreviewTask};
use tide::screen::component::{debug, file_tree, modal, pop_up, preview, toolbar};
use tide::screen::editing::{Editing, Message, Task, UploadError};
use tide::world::{FontCatalog, Source};

const MAIN_FILE_NAME: &str = "main.typ";
const OTHER_FILE_NAME: &str = "other.typ";
const TEST_CONTENT: &str = "this is a test";
const TEST_PROJECT_ROOT: &str = "/home/alice/test/project";

fn create_editing() -> Editing {
    let path = FsPath::parse(TEST_PROJECT_ROOT);
    Editing::new(
        default_pairs(),
        path,
        FontCatalog::empty(),
        Environment::new(Some(FsPath::parse("/home/alice/.config/Tide")), true, true, false),
    )
}

fn create_file_id() -> VirtualId {
    VirtualId::new(&FsPath::parse(OTHER_FILE_NAME))
}

fn main_file_id() -> VirtualId {
    VirtualId::new(&FsPath::parse(MAIN_FILE_NAME))
}

fn create_buffer() -> Buffer {
    Buffer::new()
}

fn in_project(name: &str) -> FsPath {
    FsPath::parse(TEST_PROJECT_ROOT).join_name(name)
}

fn is_notice(task: &Task, kind: PopUpType, title: &str, details: &str) -> bool {
    match task {
        Task::Done(Message::PopUp(pop_up::Message::ShowPopUp(element))) => {
            *element == PopUpElement::new(kind, title.to_string(), details.to_string())
        }
        _ => false,
    }
}

/// Opens the file `name` with the text `content` in the editor.
fn open_in_editor(editing: &mut Editing, name: &str, content: &str) {
    let path = in_project(name);
    let id = VirtualId::new(&FsPath::parse(name));
    editing.typst.add_source(id.clone(), Source::new(id, content.to_string()));
    let task = editing.update(Message::FileTree(file_tree::Message::ChangeCurrentFile(path.clone())));
    assert!(matches!(&task, Task::ReadBuffer(p) if *p == path));
    let task = editing.update(Message::BufferLoaded {
        path: path.clone(),
        loaded: Ok(content.to_string()),
    });
    assert!(matches!(&task,
        Task::Done(Message::FileTree(file_tree::Message::ChangeCurrentFile(p))) if *p == path));
    let task = editing.update(Message::FileTree(file_tree::Message::ChangeCurrentFile(path)));
    assert!(matches!(task, Task::Idle));
}

#[test]
fn test_close_buffer() {
    let mut editing = create_editing();
    let file_id = create_file_id();
    let buffer = create_buffer();
    editing.buffers.insert(file_id.clone(), buffer);
    editing.close_buffer(&file_id);
    assert!(editing.buffers.is_empty())
}

#[test]
fn test_pop_up() {
    let pop_up_el = PopUpElement::new(
        PopUpType::Warning,
        "title".to_string(),
        "there is an error".to_string(),
    );
    let mut editing = create_editing();
    let _task = editing.update(Message::PopUp(pop_up::Message::ShowPopUp(pop_up_el.clone())));
    assert_eq!(editing.pop_up, Some(pop_up_el));
    let _task = editing.update(Message::PopUp(pop_up::Message::HidePopUp));
    assert!(editing.pop_up.is_none());
}

#[test]
fn test_editor_action_performed() {
    let mut editing = create_editing();
    let _task = editing.update(Message::ActionPerformed { is_edit: true, text: "a\n".to_string(),
    });
    assert_eq!(editing.current.buffer.content, "a\n");
}

#[test]
fn test_change_main_file() {
    let mut editing = create_editing();
    let file_id = create_file_id();
    editing
        .typst
        .add_source(file_id.clone(), Source::new(file_id.clone(), String::from(TEST_CONTENT)));
    let _task = editing.update(Message::FileTree(file_tree::Message::ChangeMainFile(
        FsPath::parse(TEST_PROJECT_ROOT).join_name(OTHER_FILE_NAME),
    )));

    assert_eq!(
        editing.typst.main().as_rootless_path(),
        file_id.as_rootless_path()
    );
}

#[test]
fn test_modal() {
    let mut editing = create_editing();
    let _task = editing.update(Message::FileModal(modal::Message::Cancel, false));
    assert_eq!(editing.file_modal.file_name, String::new());
    assert!(!editing.file_modal.visible);
}

#[test]
fn a_new_session_is_empty() {
    let editing = create_editing();
    assert_eq!(editing.typst.main(), &main_file_id());
    assert_eq!(editing.typst.sources_len(), 0);
    assert_eq!(editing.typst.assets_len(), 0);
    assert!(editing.buffers.is_empty());
    assert!(editing.current_file_id().is_none());
    assert_eq!(editing.current_buffer(), &Buffer::new());
    assert!(editing.document.is_empty());
    assert_eq!(editing.auto_pairs, vec![('(', ')'), ('"', '"'), ('[', ']'), ('{', '}')]);
    assert_eq!(editing.current_dir, FsPath::parse(TEST_PROJECT_ROOT));
    assert_eq!(editing.file_modal.root, FsPath::parse(TEST_PROJECT_ROOT));
}

#[test]
fn buffers_are_saved_or_not() {
    let mut editing = create_editing();
    assert!(editing.all_saved());
    editing.buffers.insert(main_file_id(), Buffer::from_path("on disk".to_string()));
    assert!(editing.all_saved());
    editing.buffers.insert(create_file_id(), Buffer::from_content("typed".to_string()));
    assert!(!editing.all_saved());
    editing.buffers.insert(create_file_id(), Buffer::from_path("typed".to_string()));
    assert!(editing.all_saved());
    assert_eq!(editing.buffers.len(), 2);
}

#[test]
fn only_one_notice_at_a_time() {
    let first = PopUpElement::new(PopUpType::Error, "one".to_string(), "1".to_string());
    let second = PopUpElement::new(PopUpType::Warning, "two".to_string(), "2".to_string());
    let mut editing = create_editing();
    editing.update(Message::PopUp(pop_up::Message::ShowPopUp(first.clone())));
    editing.update(Message::PopUp(pop_up::Message::ShowPopUp(second)));
    assert_eq!(editing.pop_up, Some(first));
}

#[test]
fn edits_mark_the_buffer_unsaved() {
    let mut editing = create_editing();
    open_in_editor(&mut editing, OTHER_FILE_NAME, TEST_CONTENT);
    assert!(editing.current_saved());
    editing.update(Message::ActionPerformed { is_edit: false, text: TEST_CONTENT.to_string() });
    assert!(editing.current_saved());
    editing.update(Message::ActionPerformed { is_edit: true, text: "changed".to_string() });
    assert!(!editing.current_saved());
    assert_eq!(editing.current.buffer.content, "changed");
    let task = editing.update(Message::ToolBar(toolbar::Message::FileSaved(Ok(in_project(
        OTHER_FILE_NAME,
    )))));
    assert!(matches!(task, Task::Idle));
    assert!(editing.current_saved());
    let task = editing.update(Message::ToolBar(toolbar::Message::FileSaved(Err(
        "disk full".to_string()
    ))));
    assert!(is_notice(&task, PopUpType::Error, "File not saved!", "disk full"));
}

#[test]
fn the_text_goes_into_the_project_on_preview() {
    let mut editing = create_editing();
    open_in_editor(&mut editing, OTHER_FILE_NAME, TEST_CONTENT);
    editing.update(Message::ActionPerformed { is_edit: true, text: "new text\n".to_string() });
    assert_eq!(editing.typst.source(&create_file_id()).unwrap().text(), TEST_CONTENT);

    let task = editing.update(Message::ToolBar(toolbar::Message::ForcePreview));
    assert_eq!(editing.typst.source(&create_file_id()).unwrap().text(), "new text\n");
    assert_eq!(editing.buffers.get(&create_file_id()).unwrap().content, "new text\n");
    let snapshot = match task {
        Task::Compile(world) => world,
        _ => panic!("a compilation was expected"),
    };
    assert_eq!(snapshot.source(&create_file_id()).unwrap().text(), "new text\n");
    // What happens to the session afterwards does not reach the snapshot.
    editing.typst.remove_file(&create_file_id());
    assert!(snapshot.source(&create_file_id()).is_ok());
}

#[test]
fn saving_writes_the_text_of_the_editor() {
    let mut editing = create_editing();
    let task = editing.update(Message::ToolBar(toolbar::Message::SaveFile(true)));
    assert!(matches!(task, Task::Idle));

    open_in_editor(&mut editing, OTHER_FILE_NAME, TEST_CONTENT);
    editing.update(Message::ActionPerformed { is_edit: true, text: "v2".to_string() });
    let task = editing.update(Message::ToolBar(toolbar::Message::SaveFile(false)));
    assert!(matches!(&task, Task::SaveFile { path, content }
        if *path == in_project(OTHER_FILE_NAME) && content == "v2"));
    assert_eq!(editing.typst.source(&create_file_id()).unwrap().text(), TEST_CONTENT);
    let task = editing.update(Message::ToolBar(toolbar::Message::SaveFile(true)));
    assert!(matches!(&task, Task::SaveFile { content, .. } if content == "v2"));
    assert_eq!(editing.typst.source(&create_file_id()).unwrap().text(), "v2");
}

#[test]
fn an_upload_under_a_taken_name_changes_nothing() {
    let mut editing = create_editing();
    let id = create_file_id();
    editing.typst.add_source(id.clone(), Source::new(id.clone(), TEST_CONTENT.to_string()));
    let task = editing.update(Message::ToolBar(toolbar::Message::UploadPicked {
        path: FsPath::parse("/somewhere/else/other.typ"),
        exists: true,
        content: Ok(FileContent::Text("replacement".to_string())),
    }));
    assert!(is_notice(
        &task,
        PopUpType::Error,
        "Can't upload file",
        "File with the same name already exists in the project."
    ));
    assert_eq!(editing.typst.source(&id).unwrap().text(), TEST_CONTENT);
    assert_eq!(editing.typst.sources_len(), 1);
    assert_eq!(editing.typst.assets_len(), 0);
}

#[test]
fn an_upload_comes_into_the_world() {
    let mut editing = create_editing();
    let picked = FsPath::parse("/somewhere/else/logo.png");
    assert_eq!(editing.upload_target(&picked), Some(in_project("logo.png")));
    let task = editing.update(Message::ToolBar(toolbar::Message::UploadPicked {
        path: picked.clone(),
        exists: false,
        content: Ok(FileContent::Bytes(vec![1, 2, 3])),
    }));
    assert!(matches!(&task,
        Task::Done(Message::ToolBar(toolbar::Message::FileImported(Ok(path)))) if *path == picked));
    let id = VirtualId::new(&FsPath::parse("logo.png"));
    assert_eq!(editing.typst.file(&id).unwrap(), vec![1, 2, 3]);

    let task = editing.update(Message::ToolBar(toolbar::Message::UploadPicked {
        path: FsPath::parse("/somewhere/else/chapter.typ"),
        exists: false,
        content: Err("permission denied".to_string()),
    }));
    assert!(is_notice(&task, PopUpType::Error, "Can't upload file!", "permission denied"));
    let task = editing.update(Message::ToolBar(toolbar::Message::UploadPicked {
        path: FsPath::parse("/somewhere/else/README"),
        exists: false,
        content: Ok(FileContent::Bytes(vec![])),
    }));
    assert!(is_notice(&task, PopUpType::Error, "Can't upload file!", "Import error"));
    let task = editing.update(Message::ToolBar(toolbar::Message::UploadPicked {
        path: FsPath::parse("/"),
        exists: false,
        content: Ok(FileContent::Bytes(vec![])),
    }));
    assert!(matches!(task, Task::Idle));
    assert_eq!(editing.typst.assets_len(), 1);
    assert_eq!(editing.typst.sources_len(), 0);

    assert_eq!(
        editing.upload_file(&FsPath::parse("/x/.."), Ok(FileContent::Bytes(vec![]))),
        Err(UploadError::NoFileName)
    );
    assert_eq!(UploadError::NoFileName.to_string(), "The path names no file");
}

#[test]
fn a_file_leaves_the_world_only_once_it_left_the_disk() {
    let mut editing = create_editing();
    open_in_editor(&mut editing, OTHER_FILE_NAME, TEST_CONTENT);
    let id = create_file_id();

    let task = editing.update(Message::FileTree(file_tree::Message::DeleteFile(in_project(
        OTHER_FILE_NAME,
    ))));
    let question = match task {
        Task::Done(Message::PopUp(pop_up::Message::ShowPopUp(element))) => element,
        _ => panic!("a question was expected"),
    };
    assert_eq!(
        question,
        PopUpElement::new(
            PopUpType::Confirm(id.clone()),
            "Want to delete file".to_string(),
            "/home/alice/test/project/other.typ".to_string()
        )
    );
    editing.update(Message::PopUp(pop_up::Message::ShowPopUp(question)));

    let task = editing.update(Message::PopUp(pop_up::Message::DeleteFile(id.clone())));
    assert!(matches!(&task, Task::DeleteFile { id: file, path }
        if *file == id && *path == in_project(OTHER_FILE_NAME)));
    assert!(editing.typst.source(&id).is_ok());
    assert!(editing.buffers.contains_key(&id));

    let task = editing.update(Message::FileDeleted {
        id: id.clone(),
        outcome: Err("busy".to_string()),
        listings: Vec::new(),
    });
    assert!(is_notice(&task, PopUpType::Error, "Can't delete file!", "busy"));
    assert!(editing.typst.source(&id).is_ok());
    assert!(editing.buffers.contains_key(&id));

    let task = editing.update(Message::FileDeleted {
        id: id.clone(),
        outcome: Ok(()),
        listings: Vec::new(),
    });
    assert!(matches!(task, Task::Done(Message::PopUp(pop_up::Message::HidePopUp))));
    assert!(editing.typst.source(&id).is_err());
    assert!(editing.typst.file(&id).is_err());
    assert!(!editing.buffers.contains_key(&id));
    editing.update(Message::PopUp(pop_up::Message::HidePopUp));
    assert!(editing.pop_up.is_none());
}

#[test]
fn files_outside_the_project_are_refused() {
    let mut editing = create_editing();
    let outside = FsPath::parse("/home/alice/test/elsewhere/x.typ");
    let task = editing.update(Message::FileTree(file_tree::Message::ChangeMainFile(outside.clone())));
    assert!(is_notice(
        &task,
        PopUpType::Warning,
        "Can't change main file",
        "File not found in the current project.\n/home/alice/test/elsewhere/x.typ"
    ));
    assert_eq!(editing.typst.main(), &main_file_id());
    let task = editing.update(Message::FileTree(file_tree::Message::DeleteFile(outside.clone())));
    assert!(matches!(task, Task::Done(Message::FileTree(file_tree::Message::FileExit))));
    let task = editing.update(Message::FileTree(file_tree::Message::ChangeCurrentFile(outside)));
    assert!(matches!(task, Task::Idle));
}

#[test]
fn changing_the_main_file_is_remembered() {
    let mut editing = create_editing();
    let path = in_project(OTHER_FILE_NAME);
    let task = editing.update(Message::FileTree(file_tree::Message::ChangeMainFile(path.clone())));
    match task {
        Task::Both(first, second) => {
            assert!(matches!(*first, Task::CacheProject { ref project, main: None }
                if *project == ProjectCache::new(FsPath::parse(TEST_PROJECT_ROOT), Some(path.clone()))));
            assert!(matches!(*second, Task::Done(Message::FileTree(file_tree::Message::FileExit))));
        }
        _ => panic!("two tasks were expected"),
    }
    assert_eq!(editing.file_tree.main_path(), Some(&path));
    assert_eq!(editing.typst.main(), &create_file_id());

    let task = editing.update(Message::CachedProject(Some(path.clone())));
    assert!(matches!(&task,
        Task::Done(Message::FileTree(file_tree::Message::ChangeMainFile(p))) if *p == path));
    assert!(matches!(editing.update(Message::CachedProject(None)), Task::Idle));
}

#[test]
fn files_that_cannot_be_read_are_not_opened() {
    let mut editing = create_editing();
    let path = in_project("logo.png");
    let task = editing.update(Message::BufferLoaded {
        path: path.clone(),
        loaded: Err("not text".to_string()),
    });
    assert!(is_notice(
        &task,
        PopUpType::Warning,
        "Can't open file",
        "We can't open and preview this kind of file yet.\n/home/alice/test/project/logo.png"
    ));
    assert!(editing.buffers.is_empty());
}

#[test]
fn switching_files_keeps_what_was_typed() {
    let mut editing = create_editing();
    open_in_editor(&mut editing, "one.typ", "first");
    editing.update(Message::ActionPerformed { is_edit: true, text: "first, edited".to_string() });
    open_in_editor(&mut editing, "two.typ", "second");
    let one = VirtualId::new(&FsPath::parse("one.typ"));
    assert_eq!(editing.typst.source(&one).unwrap().text(), "first, edited");
    assert_eq!(editing.buffers.get(&one).unwrap().content, "first, edited");
    assert_eq!(editing.current.buffer.content, "second");
    assert_eq!(editing.file_tree.selected_path, Some(in_project("two.typ")));

    let task = editing.update(Message::FileTree(file_tree::Message::ChangeCurrentFile(in_project(
        "one.typ",
    ))));
    assert!(matches!(task, Task::Idle));
    assert_eq!(editing.current.buffer.content, "first, edited");
    assert_eq!(editing.current_file_id(), Some(&one));
}

#[test]
fn opening_a_project_loads_its_files() {
    let mut editing = create_editing();
    let root = FsPath::parse("/work/thesis");
    let task = editing.update(Message::ToolBar(toolbar::Message::OpenProject(Some(root.clone()), None)));
    assert!(matches!(&task, Task::ReadProject { root: r, main: None } if *r == root));
    let task = editing.update(Message::ToolBar(toolbar::Message::OpenProject(None, None)));
    assert!(matches!(task, Task::PickProject(None)));

    let main = root.join_name("main.typ");
    let task = editing.update(Message::ToolBar(toolbar::Message::ProjectRead {
        root: root.clone(),
        main: Some(main.clone()),
        files: vec![
            (main.clone(), FileContent::Text("= Thesis".to_string())),
            (root.join_name("fig/plot.svg"), FileContent::Bytes(vec![60, 62])),
            (root.join_name("LICENSE"), FileContent::Bytes(vec![0])),
        ],
    }));
    assert!(matches!(&task, Task::CacheProject { project, main: Some(m) }
        if *project == ProjectCache::new(root.clone(), Some(main.clone())) && *m == main));
    assert_eq!(editing.current_dir, root);
    assert_eq!(editing.file_modal.root, root);
    assert_eq!(editing.typst.sources_len(), 1);
    assert_eq!(editing.typst.assets_len(), 1);
    assert_eq!(editing.typst.source(&main_file_id()).unwrap().text(), "= Thesis");
    assert_eq!(
        editing.typst.file(&VirtualId::new(&FsPath::parse("fig/plot.svg"))).unwrap(),
        vec![60, 62]
    );
    assert_eq!(editing.file_tree.main_path(), None);
}

#[test]
fn compiling_feeds_the_preview() {
    let mut editing = create_editing();
    let document = vec![PageSize::new(595_000, 842_000).unwrap(); 3];
    let task = editing.update(Message::Compiled(Ok(document.clone())));
    assert!(matches!(task, Task::Done(Message::PreviewLoaded)));
    assert_eq!(editing.document, document);
    match editing.update(Message::PreviewLoaded) {
        Task::Both(first, second) => {
            assert!(matches!(*first, Task::Done(Message::Preview(preview::Message::ReloadPages))));
            assert!(matches!(*second, Task::Done(Message::DebugSpace(debug::Message::HideErrors))));
        }
        _ => panic!("two tasks were expected"),
    }
    let task = editing.update(Message::Preview(preview::Message::ReloadPages));
    assert!(matches!(task, Task::Fetch { pages_to_render: Some((0, 1)), zoom: 100 }));
    let task = editing.update(Message::Preview(preview::Message::ReloadPages));
    assert!(matches!(task, Task::Idle));
    let task = editing.update(Message::Preview(preview::Message::IncrementZoom));
    assert!(matches!(task, Task::Done(Message::Preview(preview::Message::ReloadPages))));
    assert_eq!(editing.preview.update(preview::Message::ReloadPages, &document), PreviewTask::Idle);

    let task = editing.update(Message::Compiled(Err(ExportError::CompilationError(
        "unclosed delimiter".to_string(),
    ))));
    let zone = match task {
        Task::Done(Message::DebugSpace(debug::Message::ShowErrors(zone))) => zone,
        _ => panic!("complaints were expected"),
    };
    assert_eq!(zone.errors(), "Can't compile document: unclosed delimiter");
    assert_eq!(editing.document, document);
    editing.update(Message::DebugSpace(debug::Message::ShowErrors(zone.clone())));
    assert_eq!(editing.debug, Some(zone));
    editing.update(Message::DebugSpace(debug::Message::HideErrors));
    assert_eq!(editing.debug, None);
    assert_eq!(DebugZone::new("x".to_string()).errors(), "x");
}

#[test]
fn completions_are_offered_and_applied() {
    let mut editing = create_editing();
    assert!(matches!(editing.update(Message::Autocomplete), Task::Idle));
    open_in_editor(&mut editing, OTHER_FILE_NAME, "#ima");
    let task = editing.update(Message::Autocomplete);
    assert!(matches!(&task, Task::Complete(id) if *id == create_file_id()));

    let proposal = |label: &str, apply: Option<&str>| Completion {
        kind: "Func".to_string(),
        label: label.to_string(),
        apply: apply.map(|a| a.to_string()),
        detail: None,
    };
    let proposals = vec![proposal("image", Some("image(${})")), proposal("label", None)];
    let task = editing.update(Message::Completed {
        cursor: 4,
        pos: 1,
        start: Some("ima".to_string()),
        completions: proposals.clone(),
    });
    let offered = match task {
        Task::Done(Message::ShowAutocomplete(1, offered)) => offered,
        _ => panic!("an offer was expected"),
    };
    assert_eq!(offered, vec![proposals[0].clone()]);
    editing.update(Message::ShowAutocomplete(1, offered));
    assert_eq!(editing.autocompletion_ctx.completions, Some(vec![proposals[0].clone()]));
    assert_eq!(editing.autocompletion_ctx.cursor, 4);
    assert_eq!(editing.autocompletion_ctx.pos, 1);

    let task = editing.update(Message::ApplyAutocomplete(0, proposals[0].clone()));
    assert!(matches!(&task, Task::Paste(text) if text == "ge(${})"));
    assert_eq!(editing.autocompletion_ctx.completions, None);

    let task = editing.update(Message::Completed {
        cursor: 9,
        pos: 9,
        start: None,
        completions: proposals.clone(),
    });
    assert!(matches!(task, Task::Idle));
    assert_eq!(editing.autocompletion_ctx.cursor, 4);
    editing.update(Message::ShowAutocomplete(7, Vec::new()));
    assert_eq!(editing.autocompletion_ctx.pos, 1);
}

#[test]
fn the_tool_bar_asks_for_what_it_cannot_do() {
    let mut editing = create_editing();
    let task = editing.update(Message::ToolBar(toolbar::Message::StartFromTemplate));
    assert!(matches!(&task, Task::PickTemplate(dir)
        if *dir == FsPath::parse("/home/alice/.config/Tide/templates")));
    let task = editing.update(Message::ToolBar(toolbar::Message::TemplatePicked(None)));
    assert!(is_notice(
        &task,
        PopUpType::Warning,
        "Project creation cancelled!",
        "We can't create your project without template."
    ));
    let template = FsPath::parse("/home/alice/.config/Tide/templates/letter.typ");
    let task = editing.update(Message::ToolBar(toolbar::Message::TemplatePicked(Some(
        template.clone(),
    ))));
    assert!(matches!(task, Task::Done(Message::ToolBar(toolbar::Message::NewProject))));
    assert_eq!(editing.project_modal.template, Some(template));
    editing.update(Message::ToolBar(toolbar::Message::NewProject));
    assert!(editing.project_modal.visible);
    editing.update(Message::ToolBar(toolbar::Message::NewFile));
    assert!(editing.file_modal.visible);

    let task = editing.update(Message::ToolBar(toolbar::Message::Upload(UploadType::All, None)));
    assert!(matches!(&task, Task::PickUpload { upload_type: UploadType::All, dir }
        if *dir == FsPath::parse(TEST_PROJECT_ROOT)));
    let task = editing.update(Message::ToolBar(toolbar::Message::AddTemplate));
    assert!(matches!(&task,
        Task::Done(Message::ToolBar(toolbar::Message::Upload(UploadType::Template, Some(dir))))
        if *dir == FsPath::parse("/home/alice/.config/Tide/templates")));

    let task = editing.update(Message::ToolBar(toolbar::Message::Export(ExportType::PDF)));
    assert!(matches!(task, Task::Export { export_type: ExportType::PDF, file: None, .. }));
    let task = editing.update(Message::ToolBar(toolbar::Message::Export(ExportType::Template)));
    assert!(is_notice(
        &task,
        PopUpType::Warning,
        "No file selected!",
        "Please select a file to export it as template."
    ));
    open_in_editor(&mut editing, OTHER_FILE_NAME, TEST_CONTENT);
    let task = editing.update(Message::ToolBar(toolbar::Message::Export(ExportType::Template)));
    assert!(matches!(&task, Task::Export { export_type: ExportType::Template, file: Some(f), .. }
        if *f == in_project(OTHER_FILE_NAME)));
    let task = editing.update(Message::ToolBar(toolbar::Message::ProjectExported(Err(
        ExportError::FileWriteError("disk full".to_string()),
    ))));
    assert!(is_notice(&task, PopUpType::Error, "Project not exported!", "Can't write file: disk full"));
    let task = editing.update(Message::ToolBar(toolbar::Message::FileImported(Err(
        "broken".to_string()
    ))));
    assert!(is_notice(&task, PopUpType::Error, "File not imported!", "broken"));

    let task = editing.update(Message::ToolBar(toolbar::Message::Help));
    assert!(matches!(&task, Task::OpenUrl(url) if url == "https://typst.app/docs/"));
    let task = editing.update(Message::ToolBar(toolbar::Message::Universe));
    assert!(matches!(&task, Task::OpenUrl(url) if url == "https://typst.app/universe/"));
    for quiet in [
        toolbar::Message::TogglePreview,
        toolbar::Message::ChangeTheme,
        toolbar::Message::OpenFile,
        toolbar::Message::DropDownMenu,
    ] {
        assert!(matches!(editing.update(Message::ToolBar(quiet)), Task::Idle));
    }
}

#[test]
fn dialogs_speak_through_the_session() {
    let mut editing = create_editing();
    editing.update(Message::FileModal(modal::Message::FileNamed("notes".to_string()), false));
    let task = editing.update(Message::FileModal(modal::Message::FileCreate, false));
    let path = match task {
        Task::Done(Message::CreateFile(path)) => path,
        _ => panic!("a file was expected"),
    };
    assert_eq!(path, in_project("notes.typ"));
    let task = editing.update(Message::CreateFile(path.clone()));
    assert!(matches!(&task, Task::CreateFile(p) if *p == path));
    let task = editing.update(Message::FileCreated {
        path: path.clone(),
        content: Ok(FileContent::Text(String::new())),
    });
    assert!(matches!(task, Task::Idle));
    assert_eq!(
        editing.typst.source(&VirtualId::new(&FsPath::parse("notes.typ"))).unwrap().text(),
        ""
    );

    editing.update(Message::ProjectModal(modal::Message::ProjectName("thesis".to_string()), false));
    editing.update(Message::ProjectModal(modal::Message::ProjectPath("/work".to_string()), false));
    let task = editing.update(Message::ProjectModal(modal::Message::OpenFileDialog, false));
    assert!(matches!(task, Task::PickFolder));
    let task = editing.update(Message::ProjectModal(modal::Message::ProjectCreate, false));
    let plan = match task {
        Task::CreateProject(plan) => plan,
        _ => panic!("a plan was expected"),
    };
    assert_eq!(plan.directory, FsPath::parse("/work/thesis"));
    assert_eq!(plan.main_file, FsPath::parse("/work/thesis/main.typ"));
    assert_eq!(plan.template, None);
    let task = editing.update(Message::ProjectModal(
        modal::Message::ProjectCreated(plan.directory.clone()),
        true,
    ));
    assert!(matches!(&task,
        Task::Done(Message::ToolBar(toolbar::Message::OpenProject(Some(root), None)))
        if *root == plan.directory));
    assert!(!editing.project_modal.visible);
}

#[test]
fn the_tree_follows_clicks() {
    let mut editing = create_editing();
    let root = FsPath::parse(TEST_PROJECT_ROOT);
    let listing = DirListing::new(
        root.clone(),
        vec![in_project("img")],
        vec![in_project("b.typ"), in_project("A.typ")],
    )
    .unwrap();
    let task = editing.update(Message::FileTree(file_tree::Message::DirClick(listing)));
    assert!(matches!(task, Task::Idle));
    editing.update(Message::FileTree(file_tree::Message::FileClick(in_project("b.typ"))));
    assert_eq!(editing.file_tree.clicked_path(), Some(&in_project("b.typ")));
    editing.update(Message::FileTree(file_tree::Message::FileExit));
    assert_eq!(editing.file_tree.clicked_path(), None);
}
