//! The editing session: the project world, the buffers of the files that are
//! open, the file tree, the preview and the dialogs, and what each message
//! does to them. The session decides; whatever touches the disk, a dialog of
//! the system or the compiler is handed out as a task, and its outcome comes
//! back as a message.

use crate::editor::autocomplete::{
    apply_to, applied, autocomplete, beginning_with, remainder, Completion,
};
use crate::editor::buffer::{Buffer, BufferView};
use crate::file_manager::export::errors::ExportError;
use crate::file_manager::export::ExportType;
use crate::file_manager::file::{
    disk_path, env_path_of, get_templates_path, Environment, ProjectCache,
};
use crate::file_manager::import::load::{
    load_file, load_of, load_repo, loaded_view, repo_of, FileContent, LoadError,
};
use crate::file_manager::import::UploadType;
use crate::id_map::IdMap;
use crate::identity::{normalized, to_absolute, to_virtual, VirtualId};
use crate::path::{file_name_of, join_of, path_of, text_of, FsPath, PathView};
use crate::screen::component::debug;
use crate::screen::component::debug::DebugZone;
use crate::screen::component::file_tree;
use crate::screen::component::file_tree::{
    closed_dir_at, listing_views, reloaded, DirListing, FileTree, TreeView,
};
use crate::screen::component::modal;
use crate::screen::component::modal::{FileModal, ProjectModal, ProjectPlan};
use crate::screen::component::pop_up;
use crate::screen::component::pop_up::{PopUpElement, PopUpType};
use crate::screen::component::preview;
use crate::screen::component::preview::{PageSize, Preview};
use crate::screen::component::toolbar;
use crate::world::{EntryView, FontCatalog, TideWorld, WorldView};
use vstd::prelude::*;

verus! {

/// The buffer shown in the editor and the file it belongs to.
#[derive(Clone, Debug, PartialEq, Eq)]
pub struct Current {
    /// The text in the editor.
    pub buffer: Buffer,
    /// The file of that text, if it is the text of a file.
    pub file_id: Option<VirtualId>,
}

impl Current {
    /// The given buffer of the given file.
    pub fn new(buffer: Buffer, file_id: Option<VirtualId>) -> (current: Current)
        ensures
            current.buffer == buffer,
            current.file_id == file_id,
    {
        Self { buffer, file_id }
    }

    /// An empty buffer of no file.
    pub fn empty() -> (current: Current)
        ensures
            current.buffer@ == (BufferView { content: Seq::empty(), is_saved: false }),
            current.file_id is None,
    {
        Self { buffer: Buffer::new(), file_id: None }
    }

    /// Shows another buffer.
    pub fn set(&mut self, buffer: Buffer, file_id: VirtualId)
        ensures
            final(self).buffer == buffer,
            final(self).file_id == Some(file_id),
    {
        self.buffer = buffer;
        self.file_id = Some(file_id);
    }
}

/// Where a completion stands: what is offered, where the cursor is and
/// where the word to complete starts.
#[derive(Clone, Debug, PartialEq, Eq)]
pub struct AutocompletionContext {
    /// What is offered, while something is.
    pub completions: Option<Vec<Completion>>,
    /// Where the cursor is.
    pub cursor: usize,
    /// Where the word to complete starts.
    pub pos: usize,
}

impl AutocompletionContext {
    /// Nothing offered.
    pub fn new() -> (ctx: AutocompletionContext)
        ensures
            ctx.completions is None,
            ctx.cursor == 0,
            ctx.pos == 0,
    {
        Self { completions: None, cursor: 0, pos: 0 }
    }
}

/// What happens in an editing session.
#[derive(Debug)]
pub enum Message {
    /// Something happened on the tool bar.
    ToolBar(toolbar::Message),
    /// The editor performed an action: whether it changed the text, and the
    /// text as it stands now.
    ActionPerformed { is_edit: bool, text: String },
    /// Something happened in the file tree.
    FileTree(file_tree::Message),
    /// Something happened in the preview.
    Preview(preview::Message),
    /// The compiler is done: the sizes of the pages, or what went wrong.
    Compiled(Result<Vec<PageSize>, ExportError>),
    /// The preview shows the compiled document.
    PreviewLoaded,
    /// Completions are wanted at the cursor.
    Autocomplete,
    /// The completion engine answered: where the cursor is, where the word
    /// to complete starts, what stands between, and what it proposes.
    Completed { cursor: usize, pos: usize, start: Option<String>, completions: Vec<Completion> },
    /// Completions are to be offered for the word that starts at the place.
    ShowAutocomplete(usize, Vec<Completion>),
    /// The user picked a completion.
    ApplyAutocomplete(usize, Completion),
    /// Something happened to the notice.
    PopUp(pop_up::Message),
    /// The file was deleted from disk, or was not, for the reason given;
    /// with it comes what was read of the directories of the tree since.
    FileDeleted { id: VirtualId, outcome: Result<(), String>, listings: Vec<DirListing> },
    /// Something happened to the panel of complaints.
    DebugSpace(debug::Message),
    /// The project was noted in the list of recent projects; with it comes
    /// the main file that the list named, if any.
    CachedProject(Option<FsPath>),
    /// A new file is to be created at the path.
    CreateFile(FsPath),
    /// The new file was created; this is what was read of it.
    FileCreated { path: FsPath, content: Result<FileContent, String> },
    /// The file at the path was read for the editor, or could not be.
    BufferLoaded { path: FsPath, loaded: Result<String, String> },
    /// Something happened in the dialog for a new file; the flag says
    /// whether the file that it would create is there already.
    FileModal(modal::Message, bool),
    /// Something happened in the dialog for a new project; the flag says
    /// whether the project that it would create, or has created, is there.
    ProjectModal(modal::Message, bool),
}

/// What a session asks for after a message.
#[derive(Debug)]
pub enum Task {
    /// Nothing.
    Idle,
    /// The message is to be sent to the session.
    Done(Message),
    /// Both tasks are to be done.
    Both(Box<Task>, Box<Task>),
    /// The world is to be compiled; the outcome comes back as `Compiled`.
    Compile(TideWorld),
    /// The text is to be written to the path; the outcome comes back as
    /// `FileSaved`.
    SaveFile { path: FsPath, content: String },
    /// The file at the path is to be deleted from disk; the outcome comes
    /// back as `FileDeleted`.
    DeleteFile { id: VirtualId, path: FsPath },
    /// The file at the path is to be read for the editor; what was read
    /// comes back as `BufferLoaded`.
    ReadBuffer(FsPath),
    /// The project is to be noted in the list of recent projects; then
    /// `CachedProject` comes back with the main file given here.
    CacheProject { project: ProjectCache, main: Option<FsPath> },
    /// An empty file is to be created at the path and read; what was read
    /// comes back as `FileCreated`.
    CreateFile(FsPath),
    /// The project is to be created on disk as planned; the outcome comes
    /// back to the dialog as `ProjectCreated` or `ProjectFailed`.
    CreateProject(ProjectPlan),
    /// The user is to pick a template in the directory; the choice comes
    /// back as `TemplatePicked`.
    PickTemplate(FsPath),
    /// The user is to pick a file to upload in the directory; the choice
    /// comes back as `UploadPicked`, the file copied into the project at
    /// `upload_target` unless a file of its name is there already.
    PickUpload { upload_type: UploadType, dir: FsPath },
    /// The user is to pick the project to open, which is then read; what
    /// was read comes back as `ProjectRead` with the main file given here.
    PickProject(Option<FsPath>),
    /// The project at the root is to be read; what was read comes back as
    /// `ProjectRead` with the main file given here.
    ReadProject { root: FsPath, main: Option<FsPath> },
    /// The user is to pick a directory for the new project; the choice comes
    /// back to the dialog as `ProjectPath`.
    PickFolder,
    /// The world is to be exported in the given form; the outcome comes
    /// back as `ProjectExported`. A template is exported from the file given.
    Export { export_type: ExportType, world: TideWorld, file: Option<FsPath> },
    /// The address is to be opened in the browser.
    OpenUrl(String),
    /// The text is to be pasted at the cursor.
    Paste(String),
    /// The completion engine is to be asked about the source at the cursor;
    /// its answer comes back as `Completed`.
    Complete(VirtualId),
    /// The pages of the range are to be rendered at the zoom; the cache
    /// built from them comes back as `PagesReloaded`.
    Fetch { pages_to_render: Option<(usize, usize)>, zoom: u16 },
}

/// Why a file was not taken into the project.
#[derive(Clone, Debug, PartialEq, Eq)]
pub enum UploadError {
    /// The path names no file.
    NoFileName,
    /// The file could not be read or copied, for the reason given.
    Io(String),
    /// What was read is no file of a project.
    Load(LoadError),
}

/// The state of an editing session.
#[derive(Debug)]
pub struct Editing {
    /// The buffer shown in the editor.
    pub current: Current,
    /// The buffers of the files that were opened.
    pub buffers: IdMap<Buffer>,
    /// The root of the project.
    pub current_dir: FsPath,
    /// The preview.
    pub preview: Preview,
    /// The sizes of the pages of the document that was last compiled.
    pub document: Vec<PageSize>,
    /// The file tree.
    pub file_tree: FileTree,
    /// The project world.
    pub typst: TideWorld,
    /// The characters that the editor closes by itself.
    pub auto_pairs: Vec<(char, char)>,
    /// The editor's own directory, as it was found.
    pub environment: Environment,
    /// Where the completion stands.
    pub autocompletion_ctx: AutocompletionContext,
    /// The notice over the screen, if there is one.
    pub pop_up: Option<PopUpElement>,
    /// The panel of complaints, if it is open.
    pub debug: Option<DebugZone>,
    /// The dialog for a new file.
    pub file_modal: FileModal,
    /// The dialog for a new project.
    pub project_modal: ProjectModal,
}

/// The world with the entries put into it one after another.
pub open spec fn with_entries(world: WorldView, entries: Seq<(Seq<Seq<char>>, EntryView)>) -> WorldView
    decreases entries.len(),
{
    if entries.len() == 0 {
        world
    } else {
        with_entries(world, entries.drop_last()).put(entries.last().0, entries.last().1)
    }
}

/// The buffers after the text of the editor went into the project: the
/// buffer of the file, if it has one, holds the text.
pub open spec fn buffers_with(
    buffers: Map<Seq<Seq<char>>, BufferView>,
    id: Seq<Seq<char>>,
    content: Seq<char>,
) -> Map<Seq<Seq<char>>, BufferView> {
    if buffers.contains_key(id) {
        buffers.insert(id, BufferView { content, is_saved: buffers[id].is_saved })
    } else {
        buffers
    }
}

/// Whether `after` is `before` with the text of the file `id` replaced by
/// `content`, in the world and in the buffer of the file.
pub open spec fn flushed(before: Editing, id: Seq<Seq<char>>, content: Seq<char>, after: Editing) -> bool {
    &&& after == (Editing { typst: after.typst, buffers: after.buffers, ..before })
    &&& after.typst@ == before.typst@.retext(id, content)
    &&& after.buffers@ == buffers_with(before.buffers@, id, content)
}

/// The world once the text of the editor went into the project.
pub open spec fn flushed_world(before: Editing) -> WorldView {
    match before.current.file_id {
        Some(id) => before.typst@.retext(id@, before.current.buffer.content@),
        None => before.typst@,
    }
}

/// The buffers once the text of the editor went into the project.
pub open spec fn flushed_buffers(before: Editing) -> Map<Seq<Seq<char>>, BufferView> {
    match before.current.file_id {
        Some(id) => buffers_with(before.buffers@, id@, before.current.buffer.content@),
        None => before.buffers@,
    }
}

/// Whether `after` is `before` with the text of the editor put into the
/// project, where the editor shows a file.
pub open spec fn flushed_current(before: Editing, after: Editing) -> bool {
    &&& after == (Editing { typst: after.typst, buffers: after.buffers, ..before })
    &&& after.typst@ == flushed_world(before)
    &&& after.buffers@ == flushed_buffers(before)
}

/// The place in the project where an uploaded file goes: under its own
/// name, in the root.
pub open spec fn upload_target_of(root: PathView, path: PathView) -> Option<PathView> {
    match file_name_of(path) {
        Some(name) => if file_name_of(join_of(root, path_of(name))) is Some {
            Some(join_of(root, path_of(name)))
        } else {
            None
        },
        None => None,
    }
}

/// Whether `after` is `before` with the file at `target` taken into the
/// world and into the tree.
pub open spec fn taken_in(
    before: Editing,
    target: PathView,
    id: Seq<Seq<char>>,
    entry: EntryView,
    after: Editing,
) -> bool {
    &&& after == (Editing { typst: after.typst, file_tree: after.file_tree, ..before })
    &&& after.typst@ == before.typst@.put(id, entry)
    &&& after.file_tree@.main_path == before.file_tree@.main_path
    &&& after.file_tree@.selected_path == before.file_tree@.selected_path
    &&& after.file_tree@.clicked_path == before.file_tree@.clicked_path
}

/// What an upload of `content`, read of the file at `path`, comes to.
pub open spec fn upload_of(
    root: PathView,
    path: PathView,
    content: Result<FileContent, String>,
) -> Result<(PathView, Seq<Seq<char>>, EntryView), UploadError> {
    match upload_target_of(root, path) {
        None => Err(UploadError::NoFileName),
        Some(target) => match content {
            Err(reason) => Err(UploadError::Io(reason)),
            Ok(read) => match load_of(target, root, read) {
                Err(error) => Err(UploadError::Load(error)),
                Ok((id, entry)) => Ok((target, id, entry)),
            },
        },
    }
}

impl Editing {
    /// The world and the buffers are sound.
    pub open spec fn wf(&self) -> bool {
        self.typst.wf() && self.buffers.wf()
    }

    /// A session on the project at `current_dir`: nothing open, nothing
    /// compiled, a world without files whose main file is `main.typ`.
    pub fn new(
        auto_pairs: Vec<(char, char)>,
        current_dir: FsPath,
        fonts: FontCatalog,
        environment: Environment,
    ) -> (editing: Editing)
        requires
            file_name_of(current_dir@) is Some,
        ensures
            editing.wf(),
            editing.current.file_id is None,
            editing.buffers@ == Map::<Seq<Seq<char>>, BufferView>::empty(),
            editing.current_dir@ == current_dir@,
            editing.file_tree@ == (TreeView {
                file_system: closed_dir_at(current_dir@),
                main_path: None,
                selected_path: None,
                clicked_path: None,
            }),
            editing.typst@.entries == Map::<Seq<Seq<char>>, EntryView>::empty(),
            editing.typst@.main == normalized(path_of("main.typ"@).parts),
            editing.typst@.fonts == fonts@,
            editing.document@.len() == 0,
            editing.pop_up is None,
            editing.debug is None,
            !editing.file_modal.visible,
            !editing.project_modal.visible,
            editing.auto_pairs == auto_pairs,
            editing.environment == environment,
            editing.autocompletion_ctx.completions is None,
            editing.current.buffer@ == (BufferView { content: Seq::empty(), is_saved: false }),
            editing.preview@ == (preview::PreviewView {
                zoom: preview::DEFAULT_ZOOM,
                viewport_h: preview::DEFAULT_VIEWPORT_H,
                offset: 0,
                pages_to_render: None,
                pages: None,
            }),
            editing.file_modal.root@ == current_dir@,
            editing.project_modal.template is None,
    {
        let tree_root = current_dir.copy();
        let modal_root = current_dir.copy();
        Self {
            current: Current::empty(),
            buffers: IdMap::new(),
            current_dir,
            preview: Preview::new(),
            document: Vec::new(),
            file_tree: FileTree::new(tree_root),
            typst: init_world(fonts),
            auto_pairs,
            environment,
            autocompletion_ctx: AutocompletionContext::new(),
            pop_up: None,
            debug: None,
            file_modal: FileModal::new(modal_root),
            project_modal: ProjectModal::new(),
        }
    }

    /// The buffer shown in the editor.
    pub fn current_buffer(&self) -> (buffer: &Buffer)
        ensures
            *buffer == self.current.buffer,
    {
        &self.current.buffer
    }

    /// The file shown in the editor, if it is a file.
    pub fn current_file_id(&self) -> (id: Option<&VirtualId>)
        ensures
            match self.current.file_id {
                Some(file_id) => id == Some(&file_id),
                None => id is None,
            },
    {
        match &self.current.file_id {
            Some(id) => Some(id),
            None => None,
        }
    }

    /// Puts a text into the project as the text of the file `id`: into the
    /// world, if the world has that source, and into the buffer of the
    /// file, if the file has one.
    pub fn update_source(&mut self, id: &VirtualId, content: &str)
        requires
            old(self).wf(),
        ensures
            final(self).wf(),
            flushed(*old(self), id@, content@, *final(self)),
    {
        self.typst.reload_source_from_content(id, content);
        let saved = match self.buffers.get(id) {
            Some(buffer) => Some(buffer.is_saved),
            None => None,
        };
        if let Some(is_saved) = saved {
            self.buffers.insert(id.copy(), Buffer { content: String::from_str(content), is_saved });
        }
    }

    /// Puts the text of the editor into the project, where the editor shows
    /// a file.
    pub fn flush_current(&mut self)
        requires
            old(self).wf(),
        ensures
            final(self).wf(),
            flushed_current(*old(self), *final(self)),
    {
        let at = match &self.current.file_id {
            Some(id) => Some((id.copy(), self.current.buffer.content.clone())),
            None => None,
        };
        if let Some((id, content)) = at {
            self.update_source(&id, content.as_str());
        }
    }

    /// Whether the text in the editor is saved.
    pub fn current_saved(&self) -> (saved: bool)
        ensures
            saved == self.current.buffer.is_saved,
    {
        self.current.buffer.is_saved
    }

    /// Whether every buffer that was opened is saved.
    pub fn all_saved(&self) -> (saved: bool)
        requires
            self.wf(),
        ensures
            saved == forall|k: Seq<Seq<char>>|
                self.buffers@.dom().contains(k) ==> (#[trigger] self.buffers@[k]).is_saved,
    {
        self.buffers.all_saved()
    }

    /// Closes the buffer of the file `id`.
    pub fn close_buffer(&mut self, id: &VirtualId)
        requires
            old(self).wf(),
        ensures
            final(self).wf(),
            *final(self) == (Editing { buffers: final(self).buffers, ..*old(self) }),
            final(self).buffers@ == old(self).buffers@.remove(id@),
    {
        self.buffers.remove(id);
    }

    /// The path on disk of the file `id` of the project.
    pub fn delete_target(&self, id: &VirtualId) -> (path: FsPath)
        ensures
            path@ == to_absolute(self.current_dir@, id@),
    {
        disk_path(id, &self.current_dir)
    }

    /// Takes the file `id` out of the session once it is gone from disk:
    /// its buffer is closed, the world forgets it and the tree reads its
    /// files again. Where the file could not be deleted from disk, nothing
    /// is taken out and the reason is handed on.
    pub fn delete_file(
        &mut self,
        id: &VirtualId,
        outcome: Result<(), String>,
        listings: &Vec<DirListing>,
    ) -> (done: Result<(), String>)
        requires
            old(self).wf(),
        ensures
            final(self).wf(),
            outcome is Ok ==> done is Ok,
            outcome matches Err(reason) ==> done == Err::<(), String>(reason),
            outcome is Err ==> *final(self) == *old(self),
            outcome is Ok ==> {
                &&& *final(self) == (Editing {
                    buffers: final(self).buffers,
                    typst: final(self).typst,
                    file_tree: final(self).file_tree,
                    ..*old(self)
                })
                &&& final(self).buffers@ == old(self).buffers@.remove(id@)
                &&& final(self).typst@ == old(self).typst@.without(id@)
                &&& reloaded(
                    old(self).file_tree@.file_system,
                    listing_views(listings@),
                    final(self).file_tree@.file_system,
                )
                &&& final(self).file_tree@.main_path == old(self).file_tree@.main_path
                &&& final(self).file_tree@.selected_path == old(self).file_tree@.selected_path
                &&& final(self).file_tree@.clicked_path == old(self).file_tree@.clicked_path
            },
    {
        match outcome {
            Err(reason) => Err(reason),
            Ok(()) => {
                self.close_buffer(id);
                self.typst.remove_file(id);
                self.file_tree.refresh(listings);
                Ok(())
            },
        }
    }

    /// The place in the project where the file at `path` goes when it is
    /// uploaded: under its own name, in the root.
    pub fn upload_target(&self, path: &FsPath) -> (target: Option<FsPath>)
        ensures
            match upload_target_of(self.current_dir@, path@) {
                Some(view) => target matches Some(t) && t@ == view,
                None => target is None,
            },
    {
        match path.file_name() {
            Some(name) => {
                let target = self.current_dir.join_name(name.as_str());
                if target.file_name().is_some() {
                    Some(target)
                } else {
                    None
                }
            },
            None => None,
        }
    }

    /// Takes a file that was copied into the project into the world and
    /// into the tree. `content` is what was read of the copy. Where
    /// anything went wrong the session stays as it is.
    pub fn upload_file(&mut self, path: &FsPath, content: Result<FileContent, String>) -> (done:
        Result<(), UploadError>)
        requires
            old(self).wf(),
        ensures
            final(self).wf(),
            match upload_of(old(self).current_dir@, path@, content) {
                Ok((target, id, entry)) => done is Ok && taken_in(
                    *old(self),
                    target,
                    id,
                    entry,
                    *final(self),
                ),
                Err(error) => done == Err::<(), UploadError>(error) && *final(self) == *old(self),
            },
    {
        let target = match self.upload_target(path) {
            Some(target) => target,
            None => {
                return Err(UploadError::NoFileName);
            },
        };
        let read = match content {
            Ok(read) => read,
            Err(reason) => {
                return Err(UploadError::Io(reason));
            },
        };
        match load_file(&target, &self.current_dir, read) {
            Err(error) => Err(UploadError::Load(error)),
            Ok(imported_file) => {
                self.typst.add_file(imported_file);
                self.file_tree.add_file(&target);
                Ok(())
            },
        }
    }

    /// Opens the project at `root` whose files were read: the tree and the
    /// dialog for new files start afresh at `root`, and every file that can
    /// be imported goes into the world.
    pub fn open_project(&mut self, root: FsPath, files: Vec<(FsPath, FileContent)>)
        requires
            old(self).wf(),
            file_name_of(root@) is Some,
        ensures
            final(self).wf(),
            opened(*old(self), root@, files@, *final(self)),
    {
        self.file_tree = FileTree::new(root.copy());
        self.file_modal = FileModal::new(root.copy());
        let imported_files = load_repo(files, &root);
        self.current_dir = root;
        let ghost start = *self;
        let ghost entries = loaded_view(imported_files@);
        let mut i: usize = 0;
        assert(entries.take(0) =~= Seq::<(Seq<Seq<char>>, EntryView)>::empty());
        while i < imported_files.len()
            invariant
                i <= imported_files.len(),
                entries == loaded_view(imported_files@),
                self.typst.wf(),
                self.buffers.wf(),
                self.typst@ == with_entries(start.typst@, entries.take(i as int)),
                *self == (Editing { typst: self.typst, ..start }),
            decreases imported_files.len() - i,
        {
            proof {
                let upto = entries.take(i + 1);
                assert(upto.drop_last() =~= entries.take(i as int));
                assert(upto.last() == entries[i as int]);
            }
            self.typst.add_file(imported_files[i].copy());
            i += 1;
        }
        assert(entries.take(imported_files.len() as int) =~= entries);
    }

    /// Makes the file at `path` the main file, in the world and in the tree;
    /// none where `path` does not lie in the project, and then nothing
    /// changes.
    pub fn change_main(&mut self, path: &FsPath) -> (id: Option<VirtualId>)
        requires
            old(self).wf(),
        ensures
            final(self).wf(),
            match to_virtual(old(self).current_dir@, path@) {
                Some(found) => {
                    &&& id matches Some(new_main)
                    &&& new_main@ == found
                    &&& *final(self) == (Editing {
                        typst: final(self).typst,
                        file_tree: final(self).file_tree,
                        ..*old(self)
                    })
                    &&& final(self).typst@ == old(self).typst@.with_main(found)
                    &&& final(self).file_tree@ == (TreeView {
                        main_path: Some(path@),
                        ..old(self).file_tree@
                    })
                },
                None => id is None && *final(self) == *old(self),
            },
    {
        match TideWorld::id_from_path(path, &self.current_dir) {
            Some(new_main_id) => {
                self.typst.change_main(new_main_id.copy());
                self.file_tree.change_main(path);
                Some(new_main_id)
            },
            None => None,
        }
    }
}

/// Whether the task is to show a notice of the kind with the title and the
/// details.
pub open spec fn is_notice(task: Task, kind: PopUpType, title: Seq<char>, details: Seq<char>) -> bool {
    &&& task matches Task::Done(Message::PopUp(pop_up::Message::ShowPopUp(element)))
    &&& element.spec_type() == kind
    &&& element.spec_title() == title
    &&& element.spec_details() == details
}

/// The task to show a notice.
fn notice(kind: PopUpType, title: &str, details: String) -> (task: Task)
    ensures
        is_notice(task, kind, title@, details@),
{
    Task::Done(
        Message::PopUp(
            pop_up::Message::ShowPopUp(PopUpElement::new(kind, String::from_str(title), details)),
        ),
    )
}

/// The words for a failed upload.
pub open spec fn upload_error_text(error: UploadError) -> Seq<char> {
    match error {
        UploadError::NoFileName => "The path names no file"@,
        UploadError::Io(reason) => reason@,
        UploadError::Load(LoadError::NoExtension) => "Import error"@,
        UploadError::Load(LoadError::InvalidData) => "The file is no text"@,
        UploadError::Load(LoadError::NotFound) => "The file is not in the project"@,
    }
}

impl UploadError {
    /// The failure in words.
    pub fn to_string(&self) -> (text: String)
        ensures
            text@ == upload_error_text(*self),
    {
        match self {
            UploadError::NoFileName => String::from_str("The path names no file"),
            UploadError::Io(reason) => reason.clone(),
            UploadError::Load(LoadError::NoExtension) => String::from_str("Import error"),
            UploadError::Load(LoadError::InvalidData) => String::from_str("The file is no text"),
            UploadError::Load(LoadError::NotFound) => String::from_str(
                "The file is not in the project",
            ),
        }
    }
}

/// The directory in which templates are looked for: the templates of the
/// environment, or the project where there are none.
pub open spec fn templates_dir_of(before: Editing) -> PathView {
    match env_path_of(before.environment@.root, before.environment@.has_templates, "templates"@) {
        Some(dir) => dir,
        None => before.current_dir@,
    }
}

/// What a message of the notice does.
pub open spec fn pop_up_step(before: Editing, message: pop_up::Message, after: Editing, task: Task) -> bool {
    match message {
        pop_up::Message::ShowPopUp(element) => {
            &&& task is Idle
            &&& after == (Editing {
                pop_up: if before.pop_up is None {
                    Some(element)
                } else {
                    before.pop_up
                },
                ..before
            })
        },
        pop_up::Message::HidePopUp => task is Idle && after == (Editing { pop_up: None, ..before }),
        pop_up::Message::DeleteFile(id) => {
            &&& after == before
            &&& task matches Task::DeleteFile { id: file, path }
            &&& file@ == id@
            &&& path@ == to_absolute(before.current_dir@, id@)
        },
    }
}

/// What the news of a file's deletion does: a file that is gone from disk
/// leaves the buffers, the world and the tree, and the notice goes away; a
/// file that is still there stays everywhere, and a notice says why.
pub open spec fn deleted_step(
    before: Editing,
    id: VirtualId,
    outcome: Result<(), String>,
    listings: Seq<DirListing>,
    after: Editing,
    task: Task,
) -> bool {
    match outcome {
        Err(reason) => after == before && is_notice(
            task,
            PopUpType::Error,
            "Can't delete file!"@,
            reason@,
        ),
        Ok(_) => {
            &&& task matches Task::Done(Message::PopUp(pop_up::Message::HidePopUp))
            &&& after == (Editing {
                buffers: after.buffers,
                typst: after.typst,
                file_tree: after.file_tree,
                ..before
            })
            &&& after.buffers@ == before.buffers@.remove(id@)
            &&& after.typst@ == before.typst@.without(id@)
            &&& reloaded(
                before.file_tree@.file_system,
                listing_views(listings),
                after.file_tree@.file_system,
            )
            &&& after.file_tree@.main_path == before.file_tree@.main_path
            &&& after.file_tree@.selected_path == before.file_tree@.selected_path
            &&& after.file_tree@.clicked_path == before.file_tree@.clicked_path
        },
    }
}

/// What the choice of a file to upload does. A file whose name is taken in
/// the project is refused, and the session stays as it is; so it does where
/// the file could not be read or is no file of a project. Otherwise the
/// file is taken into the world and into the tree.
pub open spec fn upload_step(
    before: Editing,
    path: FsPath,
    exists: bool,
    content: Result<FileContent, String>,
    after: Editing,
    task: Task,
) -> bool {
    if file_name_of(path@) is None {
        after == before && task is Idle
    } else if exists {
        after == before && is_notice(
            task,
            PopUpType::Error,
            "Can't upload file"@,
            "File with the same name already exists in the project."@,
        )
    } else {
        match upload_of(before.current_dir@, path@, content) {
            Ok((target, id, entry)) => {
                &&& taken_in(before, target, id, entry, after)
                &&& task matches Task::Done(
                    Message::ToolBar(toolbar::Message::FileImported(Ok(imported))),
                )
                &&& imported == path
            },
            Err(error) => after == before && is_notice(
                task,
                PopUpType::Error,
                "Can't upload file!"@,
                upload_error_text(error),
            ),
        }
    }
}

/// An upload under a name that is taken in the project leaves the session
/// as it was, whatever was picked and whatever was read of it.
pub proof fn lemma_taken_name_is_refused(
    before: Editing,
    path: FsPath,
    content: Result<FileContent, String>,
    after: Editing,
    task: Task,
)
    requires
        upload_step(before, path, true, content, after, task),
    ensures
        after == before,
        after.typst@ == before.typst@,
        !(task matches Task::Done(Message::ToolBar(toolbar::Message::FileImported(Ok(_))))),
{
}

/// A file leaves the world only on the news that it is gone from disk: the
/// wish to delete it and a failed deletion leave the world as it was.
pub proof fn lemma_deleted_from_disk_first(
    before: Editing,
    id: VirtualId,
    reason: String,
    listings: Seq<DirListing>,
    after: Editing,
    task: Task,
)
    requires
        pop_up_step(before, pop_up::Message::DeleteFile(id), after, task) || deleted_step(
            before,
            id,
            Err(reason),
            listings,
            after,
            task,
        ),
    ensures
        after.typst@ == before.typst@,
        after.buffers@ == before.buffers@,
{
}

/// Whether the task is to compile or export a copy of the world of `before`.
pub open spec fn is_snapshot(world: TideWorld, before: Editing) -> bool {
    world.wf() && world@ == before.typst@
}

impl Editing {
    /// A message of the notice: a notice is shown unless one is up, the
    /// notice goes away, or the user agreed to delete a file, which is then
    /// to be deleted from disk before anything else happens to it.
    pub fn update_pop_up(&mut self, message: pop_up::Message) -> (task: Task)
        requires
            old(self).wf(),
        ensures
            final(self).wf(),
            pop_up_step(*old(self), message, *final(self), task),
    {
        match message {
            pop_up::Message::ShowPopUp(pop_up_element) => {
                if self.pop_up.is_none() {
                    self.pop_up = Some(pop_up_element);
                }
                Task::Idle
            },
            pop_up::Message::HidePopUp => {
                self.pop_up = None;
                Task::Idle
            },
            pop_up::Message::DeleteFile(id) => {
                let path = self.delete_target(&id);
                Task::DeleteFile { id, path }
            },
        }
    }

    /// The news that a file was deleted from disk, or was not.
    pub fn update_deleted(
        &mut self,
        id: VirtualId,
        outcome: Result<(), String>,
        listings: Vec<DirListing>,
    ) -> (task: Task)
        requires
            old(self).wf(),
        ensures
            final(self).wf(),
            deleted_step(*old(self), id, outcome, listings@, *final(self), task),
    {
        match self.delete_file(&id, outcome, &listings) {
            Ok(_) => Task::Done(Message::PopUp(pop_up::Message::HidePopUp)),
            Err(err) => notice(PopUpType::Error, "Can't delete file!", err),
        }
    }

    /// The choice of a file to upload.
    pub fn update_upload(
        &mut self,
        path: FsPath,
        exists: bool,
        content: Result<FileContent, String>,
    ) -> (task: Task)
        requires
            old(self).wf(),
        ensures
            final(self).wf(),
            upload_step(*old(self), path, exists, content, *final(self), task),
    {
        if path.file_name().is_some() {
            if !exists {
                match self.upload_file(&path, content) {
                    Ok(_) => Task::Done(Message::ToolBar(toolbar::Message::FileImported(Ok(path)))),
                    Err(err) => notice(PopUpType::Error, "Can't upload file!", err.to_string()),
                }
            } else {
                notice(
                    PopUpType::Error,
                    "Can't upload file",
                    String::from_str("File with the same name already exists in the project."),
                )
            }
        } else {
            Task::Idle
        }
    }
}

/// A copy of a path that may be missing.
fn copy_path(path: &Option<FsPath>) -> (out: Option<FsPath>)
    ensures
        file_tree::path_view(out) == file_tree::path_view(*path),
{
    match path {
        Some(path) => Some(path.copy()),
        None => None,
    }
}

/// Whether `after` is `before` with the project at `root` opened, whose
/// files were read.
pub open spec fn opened(
    before: Editing,
    root: PathView,
    files: Seq<(FsPath, FileContent)>,
    after: Editing,
) -> bool {
    &&& after == (Editing {
        current_dir: after.current_dir,
        file_tree: after.file_tree,
        file_modal: after.file_modal,
        typst: after.typst,
        ..before
    })
    &&& after.current_dir@ == root
    &&& after.file_tree@ == (TreeView {
        file_system: closed_dir_at(root),
        main_path: None,
        selected_path: None,
        clicked_path: None,
    })
    &&& after.file_modal.root@ == root
    &&& !after.file_modal.visible
    &&& after.file_modal.file_name@.len() == 0
    &&& after.file_modal.warning_text@.len() == 0
    &&& after.typst@ == with_entries(before.typst@, repo_of(files, root))
}

/// What a message of the tool bar does.
pub open spec fn tool_bar_step(before: Editing, message: toolbar::Message, after: Editing, task: Task) -> bool {
    match message {
        toolbar::Message::StartFromTemplate => {
            &&& after == before
            &&& task matches Task::PickTemplate(dir)
            &&& dir@ == templates_dir_of(before)
        },
        toolbar::Message::TemplatePicked(Some(template)) => {
            &&& after == (Editing {
                project_modal: ProjectModal { template: Some(template), ..before.project_modal },
                ..before
            })
            &&& task matches Task::Done(Message::ToolBar(toolbar::Message::NewProject))
        },
        toolbar::Message::TemplatePicked(None) => after == before && is_notice(
            task,
            PopUpType::Warning,
            "Project creation cancelled!"@,
            "We can't create your project without template."@,
        ),
        toolbar::Message::ForcePreview => {
            &&& flushed_current(before, after)
            &&& task matches Task::Compile(world)
            &&& is_snapshot(world, after)
        },
        toolbar::Message::SaveFile(update) => match before.current.file_id {
            Some(id) => {
                &&& if update {
                    flushed_current(before, after)
                } else {
                    after == before
                }
                &&& task matches Task::SaveFile { path, content }
                &&& path@ == to_absolute(before.current_dir@, id@)
                &&& content@ == before.current.buffer.content@
            },
            None => after == before && task is Idle,
        },
        toolbar::Message::FileSaved(Ok(_)) => task is Idle && after == (Editing {
            current: Current {
                buffer: Buffer { is_saved: true, ..before.current.buffer },
                ..before.current
            },
            ..before
        }),
        toolbar::Message::FileSaved(Err(reason)) => after == before && is_notice(
            task,
            PopUpType::Error,
            "File not saved!"@,
            reason@,
        ),
        toolbar::Message::Upload(upload_type, import_path) => {
            &&& after == before
            &&& task matches Task::PickUpload { upload_type: wanted, dir }
            &&& wanted == upload_type
            &&& dir@ == match import_path {
                Some(path) => path@,
                None => before.current_dir@,
            }
        },
        toolbar::Message::UploadPicked { path, exists, content } => upload_step(
            before,
            path,
            exists,
            content,
            after,
            task,
        ),
        toolbar::Message::FileImported(Ok(_)) => after == before && task is Idle,
        toolbar::Message::FileImported(Err(reason)) => after == before && is_notice(
            task,
            PopUpType::Error,
            "File not imported!"@,
            reason@,
        ),
        toolbar::Message::OpenProject(Some(path), main) => {
            &&& after == before
            &&& task matches Task::ReadProject { root, main: named }
            &&& root == path
            &&& named == main
        },
        toolbar::Message::OpenProject(None, main) => {
            &&& after == before
            &&& task matches Task::PickProject(named)
            &&& named == main
        },
        toolbar::Message::ProjectRead { root, main, files } => {
            &&& opened(before, root@, files@, after)
            &&& task matches Task::CacheProject { project, main: named }
            &&& project.root_path@ == root@
            &&& file_tree::path_view(project.main) == file_tree::path_view(main)
            &&& named == main
        },
        toolbar::Message::Export(export_type) => {
            &&& after == before
            &&& if export_type == ExportType::Template && before.file_tree@.selected_path is None {
                is_notice(
                    task,
                    PopUpType::Warning,
                    "No file selected!"@,
                    "Please select a file to export it as template."@,
                )
            } else {
                &&& task matches Task::Export { export_type: wanted, world, file }
                &&& wanted == export_type
                &&& is_snapshot(world, before)
                &&& file_tree::path_view(file) == if export_type == ExportType::Template {
                    before.file_tree@.selected_path
                } else {
                    None
                }
            }
        },
        toolbar::Message::AddTemplate => {
            &&& after == before
            &&& task matches Task::Done(
                Message::ToolBar(toolbar::Message::Upload(UploadType::Template, dir)),
            )
            &&& file_tree::path_view(dir) == env_path_of(
                before.environment@.root,
                before.environment@.has_templates,
                "templates"@,
            )
        },
        toolbar::Message::ProjectExported(Ok(_)) => after == before && task is Idle,
        toolbar::Message::ProjectExported(Err(error)) => after == before && is_notice(
            task,
            PopUpType::Error,
            "Project not exported!"@,
            crate::file_manager::export::errors::heading_of(error)
                + crate::file_manager::export::errors::detail_of(error),
        ),
        toolbar::Message::Universe => {
            &&& after == before
            &&& task matches Task::OpenUrl(url)
            &&& url@ == "https://typst.app/universe/"@
        },
        toolbar::Message::Help => {
            &&& after == before
            &&& task matches Task::OpenUrl(url)
            &&& url@ == "https://typst.app/docs/"@
        },
        toolbar::Message::NewFile => task is Idle && after == (Editing {
            file_modal: FileModal { visible: true, ..before.file_modal },
            ..before
        }),
        toolbar::Message::NewProject => task is Idle && after == (Editing {
            project_modal: ProjectModal { visible: true, ..before.project_modal },
            ..before
        }),
        _ => after == before && task is Idle,
    }
}

/// What a message of the file tree does.
pub open spec fn file_tree_step(before: Editing, message: file_tree::Message, after: Editing, task: Task) -> bool {
    match message {
        file_tree::Message::DirClick(found) => {
            &&& task is Idle
            &&& after == (Editing { file_tree: after.file_tree, ..before })
            &&& file_tree::folded(
                before.file_tree@.file_system,
                found@.path,
                found@,
                after.file_tree@.file_system,
            )
            &&& after.file_tree@.main_path == before.file_tree@.main_path
            &&& after.file_tree@.selected_path == before.file_tree@.selected_path
            &&& after.file_tree@.clicked_path == before.file_tree@.clicked_path
        },
        file_tree::Message::ChangeCurrentFile(path) => match to_virtual(
            before.current_dir@,
            path@,
        ) {
            None => after == before && task is Idle,
            Some(id) => {
                &&& after == (Editing {
                    typst: after.typst,
                    buffers: after.buffers,
                    current: after.current,
                    file_tree: after.file_tree,
                    ..before
                })
                &&& after.typst@ == flushed_world(before)
                &&& after.buffers@ == flushed_buffers(before)
                &&& if flushed_buffers(before).contains_key(id) {
                    &&& task is Idle
                    &&& after.current.buffer@ == flushed_buffers(before)[id]
                    &&& after.current.file_id matches Some(shown)
                    &&& shown@ == id
                    &&& after.file_tree@ == (TreeView {
                        selected_path: Some(path@),
                        ..before.file_tree@
                    })
                } else {
                    &&& task matches Task::ReadBuffer(wanted)
                    &&& wanted == path
                    &&& after.current == before.current
                    &&& after.file_tree == before.file_tree
                }
            },
        },
        file_tree::Message::ChangeMainFile(path) => match to_virtual(before.current_dir@, path@) {
            Some(found) => {
                &&& after == (Editing {
                    typst: after.typst,
                    file_tree: after.file_tree,
                    ..before
                })
                &&& after.typst@ == before.typst@.with_main(found)
                &&& after.file_tree@ == (TreeView { main_path: Some(path@), ..before.file_tree@ })
                &&& task matches Task::Both(first, second)
                &&& *first matches Task::CacheProject { project, main }
                &&& project.root_path@ == before.current_dir@
                &&& file_tree::path_view(project.main) == Some(path@)
                &&& main is None
                &&& *second matches Task::Done(Message::FileTree(file_tree::Message::FileExit))
            },
            None => after == before && is_notice(
                task,
                PopUpType::Warning,
                "Can't change main file"@,
                "File not found in the current project.\n"@ + text_of(path@),
            ),
        },
        file_tree::Message::FileExit => {
            &&& task is Idle
            &&& after == (Editing { file_tree: after.file_tree, ..before })
            &&& after.file_tree@ == (TreeView { clicked_path: None, ..before.file_tree@ })
        },
        file_tree::Message::FileClick(path) => {
            &&& task is Idle
            &&& after == (Editing { file_tree: after.file_tree, ..before })
            &&& after.file_tree@ == (TreeView { clicked_path: Some(path@), ..before.file_tree@ })
        },
        file_tree::Message::DeleteFile(path) => {
            &&& after == before
            &&& match to_virtual(before.current_dir@, path@) {
                Some(id) => {
                    &&& task matches Task::Done(
                        Message::PopUp(pop_up::Message::ShowPopUp(element)),
                    )
                    &&& element.spec_type() matches PopUpType::Confirm(file)
                    &&& file@ == id
                    &&& element.spec_title() == "Want to delete file"@
                    &&& element.spec_details() == text_of(path@)
                },
                None => task matches Task::Done(
                    Message::FileTree(file_tree::Message::FileExit),
                ),
            }
        },
    }
}

impl Editing {
    /// A message of the tool bar.
    pub fn update_tool_bar(&mut self, message: toolbar::Message) -> (task: Task)
        requires
            old(self).wf(),
            message matches toolbar::Message::ProjectRead { root, .. } ==> file_name_of(root@)
                is Some,
        ensures
            final(self).wf(),
            tool_bar_step(*old(self), message, *final(self), task),
    {
        match message {
            toolbar::Message::StartFromTemplate => {
                let templates_path = match get_templates_path(&self.environment) {
                    Some(path) => path,
                    None => self.current_dir.copy(),
                };
                Task::PickTemplate(templates_path)
            },
            toolbar::Message::TemplatePicked(Some(template)) => {
                self.project_modal.require_template(template);
                Task::Done(Message::ToolBar(toolbar::Message::NewProject))
            },
            toolbar::Message::TemplatePicked(None) => notice(
                PopUpType::Warning,
                "Project creation cancelled!",
                String::from_str("We can't create your project without template."),
            ),
            toolbar::Message::ForcePreview => {
                self.flush_current();
                Task::Compile(self.typst.snapshot_clone())
            },
            toolbar::Message::SaveFile(update) => {
                let id = match &self.current.file_id {
                    Some(id) => Some(id.copy()),
                    None => None,
                };
                match id {
                    Some(id) => {
                        if update {
                            self.flush_current();
                        }
                        Task::SaveFile {
                            path: disk_path(&id, &self.current_dir),
                            content: self.current.buffer.content.clone(),
                        }
                    },
                    None => Task::Idle,
                }
            },
            toolbar::Message::FileSaved(Ok(_)) => {
                self.current.buffer.is_saved = true;
                Task::Idle
            },
            toolbar::Message::FileSaved(Err(err)) => notice(PopUpType::Error, "File not saved!", err),
            toolbar::Message::Upload(upload_type, import_path) => {
                let dir = match import_path {
                    Some(path) => path,
                    None => self.current_dir.copy(),
                };
                Task::PickUpload { upload_type, dir }
            },
            toolbar::Message::UploadPicked { path, exists, content } => self.update_upload(
                path,
                exists,
                content,
            ),
            toolbar::Message::FileImported(Ok(_)) => Task::Idle,
            toolbar::Message::FileImported(Err(err)) => notice(
                PopUpType::Error,
                "File not imported!",
                err,
            ),
            toolbar::Message::OpenProject(Some(path), main) => Task::ReadProject { root: path, main },
            toolbar::Message::OpenProject(None, main) => Task::PickProject(main),
            toolbar::Message::ProjectRead { root, main, files } => {
                self.open_project(root, files);
                Task::CacheProject {
                    project: ProjectCache::new(self.current_dir.copy(), copy_path(&main)),
                    main,
                }
            },
            toolbar::Message::Export(export_type) => {
                match export_type {
                    ExportType::Template => {
                        let selected = match self.file_tree.selected() {
                            Some(path) => Some(path.copy()),
                            None => None,
                        };
                        match selected {
                            Some(current_path) => Task::Export {
                                export_type,
                                world: self.typst.snapshot_clone(),
                                file: Some(current_path),
                            },
                            None => notice(
                                PopUpType::Warning,
                                "No file selected!",
                                String::from_str("Please select a file to export it as template."),
                            ),
                        }
                    },
                    _ => Task::Export {
                        export_type,
                        world: self.typst.snapshot_clone(),
                        file: None,
                    },
                }
            },
            toolbar::Message::AddTemplate => Task::Done(
                Message::ToolBar(
                    toolbar::Message::Upload(
                        UploadType::Template,
                        get_templates_path(&self.environment),
                    ),
                ),
            ),
            toolbar::Message::ProjectExported(Ok(_)) => Task::Idle,
            toolbar::Message::ProjectExported(Err(err)) => notice(
                PopUpType::Error,
                "Project not exported!",
                err.to_string(),
            ),
            toolbar::Message::Universe => Task::OpenUrl(String::from_str("https://typst.app/universe/")),
            toolbar::Message::Help => Task::OpenUrl(String::from_str("https://typst.app/docs/")),
            toolbar::Message::NewFile => {
                self.file_modal.show();
                Task::Idle
            },
            toolbar::Message::NewProject => {
                self.project_modal.show();
                Task::Idle
            },
            _ => Task::Idle,
        }
    }

    /// A message of the file tree.
    pub fn update_file_tree(&mut self, message: file_tree::Message) -> (task: Task)
        requires
            old(self).wf(),
        ensures
            final(self).wf(),
            file_tree_step(*old(self), message, *final(self), task),
    {
        match message {
            file_tree::Message::DirClick(found) => {
                let path = found.path().copy();
                self.file_tree.fold(&path, &found);
                Task::Idle
            },
            file_tree::Message::ChangeCurrentFile(path) => {
                match TideWorld::id_from_path(&path, &self.current_dir) {
                    Some(id) => {
                        self.flush_current();
                        let found = match self.buffers.get(&id) {
                            Some(buffer) => Some(buffer.copy()),
                            None => None,
                        };
                        match found {
                            Some(buffer) => {
                                self.current.set(buffer, id);
                                self.file_tree.change_selected(&path);
                                Task::Idle
                            },
                            None => Task::ReadBuffer(path),
                        }
                    },
                    None => Task::Idle,
                }
            },
            file_tree::Message::ChangeMainFile(path) => {
                match self.change_main(&path) {
                    Some(_) => {
                        let project = ProjectCache::new(self.current_dir.copy(), Some(path));
                        Task::Both(
                            Box::new(Task::CacheProject { project, main: None }),
                            Box::new(
                                Task::Done(Message::FileTree(file_tree::Message::FileExit)),
                            ),
                        )
                    },
                    None => {
                        let text = path.to_text();
                        notice(
                            PopUpType::Warning,
                            "Can't change main file",
                            crate::file_manager::export::errors::append_text(
                                "File not found in the current project.\n",
                                text.as_str(),
                            ),
                        )
                    },
                }
            },
            file_tree::Message::FileExit => {
                self.file_tree.change_clicked(None);
                Task::Idle
            },
            file_tree::Message::FileClick(path) => {
                self.file_tree.change_clicked(Some(path));
                Task::Idle
            },
            file_tree::Message::DeleteFile(path) => {
                match TideWorld::id_from_path(&path, &self.current_dir) {
                    Some(id) => Task::Done(
                        Message::PopUp(
                            pop_up::Message::ShowPopUp(
                                PopUpElement::new(
                                    PopUpType::Confirm(id),
                                    String::from_str("Want to delete file"),
                                    path.to_text(),
                                ),
                            ),
                        ),
                    ),
                    None => Task::Done(Message::FileTree(file_tree::Message::FileExit)),
                }
            },
        }
    }
}

/// Whether the session's task carries on what the dialog for a new file
/// asked for.
pub open spec fn carries_file(inner: modal::Task, task: Task) -> bool {
    match inner {
        modal::Task::CreateFile(path) => task matches Task::Done(Message::CreateFile(wanted))
            && wanted == path,
        _ => task is Idle,
    }
}

/// Whether the session's task carries on what the dialog for a new project
/// asked for.
pub open spec fn carries_project(dialog: ProjectModal, inner: modal::Task, task: Task) -> bool {
    match inner {
        modal::Task::PickFolder => task is PickFolder,
        modal::Task::CreateProject => {
            &&& task matches Task::CreateProject(plan)
            &&& plan.directory@ == modal::project_target_of(
                dialog.project_path@,
                dialog.project_name@,
            )
            &&& plan.main_file@ == join_of(plan.directory@, path_of("main.typ"@))
            &&& match dialog.template {
                Some(from) => plan.template matches Some(pair) && pair.0@ == from@ && pair.1@
                    == join_of(plan.directory@, path_of("template.typ"@)),
                None => plan.template is None,
            }
        },
        modal::Task::OpenProject(path) => {
            &&& task matches Task::Done(
                Message::ToolBar(toolbar::Message::OpenProject(Some(root), None)),
            )
            &&& root == path
        },
        _ => task is Idle,
    }
}

/// What the preview's task becomes in the session.
pub open spec fn carries_preview(inner: preview::Task, task: Task) -> bool {
    match inner {
        preview::Task::Idle => task is Idle,
        preview::Task::ReloadPages => task matches Task::Done(
            Message::Preview(preview::Message::ReloadPages),
        ),
        preview::Task::Fetch { pages_to_render, zoom } => task == (Task::Fetch {
            pages_to_render,
            zoom,
        }),
    }
}

/// What a message does to the session, and what the session asks for.
pub open spec fn step(before: Editing, message: Message, after: Editing, task: Task) -> bool {
    match message {
        Message::CachedProject(main) => {
            &&& after == before
            &&& match main {
                Some(path) => task matches Task::Done(
                    Message::FileTree(file_tree::Message::ChangeMainFile(wanted)),
                ) && wanted == path,
                None => task is Idle,
            }
        },
        Message::PopUp(inner) => pop_up_step(before, inner, after, task),
        Message::FileDeleted { id, outcome, listings } => deleted_step(
            before,
            id,
            outcome,
            listings@,
            after,
            task,
        ),
        Message::DebugSpace(debug::Message::ShowErrors(zone)) => task is Idle && after == (Editing {
            debug: Some(zone),
            ..before
        }),
        Message::DebugSpace(debug::Message::HideErrors) => task is Idle && after == (Editing {
            debug: None,
            ..before
        }),
        Message::ApplyAutocomplete(_, completion) => {
            &&& after == (Editing {
                autocompletion_ctx: AutocompletionContext {
                    completions: None,
                    ..before.autocompletion_ctx
                },
                ..before
            })
            &&& task matches Task::Paste(text)
            &&& text@ == remainder(
                applied(completion),
                before.autocompletion_ctx.cursor - before.autocompletion_ctx.pos,
            )
        },
        Message::ShowAutocomplete(pos, completions) => task is Idle && after == if completions@.len()
            > 0 {
            Editing {
                autocompletion_ctx: AutocompletionContext {
                    pos,
                    completions: Some(completions),
                    ..before.autocompletion_ctx
                },
                ..before
            }
        } else {
            before
        },
        Message::Autocomplete => match before.current.file_id {
            Some(id) => {
                &&& flushed_current(before, after)
                &&& if flushed_world(before).source(id@) is Some {
                    task matches Task::Complete(file) && file@ == id@
                } else {
                    task is Idle
                }
            },
            None => after == before && task is Idle,
        },
        Message::Completed { cursor, pos, start, completions } => match start {
            None => after == before && task is Idle,
            Some(word) => {
                &&& after == (Editing {
                    autocompletion_ctx: AutocompletionContext {
                        cursor,
                        ..before.autocompletion_ctx
                    },
                    ..before
                })
                &&& task matches Task::Done(Message::ShowAutocomplete(place, list))
                &&& place == pos
                &&& list@ == if word@.len() == 0 {
                    completions@
                } else {
                    beginning_with(completions@, word@)
                }
            },
        },
        Message::ActionPerformed { is_edit, text } => task is Idle && after == (Editing {
            current: Current {
                buffer: Buffer {
                    content: text,
                    is_saved: before.current.buffer.is_saved && !is_edit,
                },
                ..before.current
            },
            ..before
        }),
        Message::Compiled(Ok(document)) => {
            &&& after == (Editing { document, ..before })
            &&& task matches Task::Done(Message::PreviewLoaded)
        },
        Message::Compiled(Err(error)) => {
            &&& after == before
            &&& task matches Task::Done(Message::DebugSpace(debug::Message::ShowErrors(zone)))
            &&& zone@ == crate::file_manager::export::errors::heading_of(error)
                + crate::file_manager::export::errors::detail_of(error)
        },
        Message::PreviewLoaded => {
            &&& after == before
            &&& task matches Task::Both(first, second)
            &&& *first matches Task::Done(Message::Preview(preview::Message::ReloadPages))
            &&& *second matches Task::Done(Message::DebugSpace(debug::Message::HideErrors))
        },
        Message::Preview(inner) => {
            &&& after == (Editing { preview: after.preview, ..before })
            &&& after.preview@ == preview::next_state(before.preview@, inner, before.document@)
            &&& carries_preview(
                preview::next_task(before.preview@, inner, before.document@),
                task,
            )
        },
        Message::ToolBar(inner) => tool_bar_step(before, inner, after, task),
        Message::FileTree(inner) => file_tree_step(before, inner, after, task),
        Message::BufferLoaded { path, loaded } => match to_virtual(before.current_dir@, path@) {
            None => after == before && task is Idle,
            Some(id) => match loaded {
                Ok(text) => {
                    &&& after == (Editing { buffers: after.buffers, ..before })
                    &&& after.buffers@ == before.buffers@.insert(
                        id,
                        BufferView { content: text@, is_saved: true },
                    )
                    &&& task matches Task::Done(
                        Message::FileTree(file_tree::Message::ChangeCurrentFile(wanted)),
                    )
                    &&& wanted == path
                },
                Err(_) => after == before && is_notice(
                    task,
                    PopUpType::Warning,
                    "Can't open file"@,
                    "We can't open and preview this kind of file yet.\n"@ + text_of(path@),
                ),
            },
        },
        Message::FileModal(inner, exists) => {
            &&& after == (Editing { file_modal: after.file_modal, ..before })
            &&& exists|asked: modal::Task|
                #![trigger carries_file(asked, task)]
                modal::file_modal_step(before.file_modal, inner, exists, after.file_modal, asked)
                    && carries_file(asked, task)
        },
        Message::ProjectModal(inner, exists) => {
            &&& after == (Editing { project_modal: after.project_modal, ..before })
            &&& exists|asked: modal::Task|
                #![trigger carries_project(after.project_modal, asked, task)]
                modal::project_modal_step(
                    before.project_modal,
                    inner,
                    exists,
                    after.project_modal,
                    asked,
                ) && carries_project(after.project_modal, asked, task)
        },
        Message::CreateFile(path) => {
            &&& after == before
            &&& task matches Task::CreateFile(wanted)
            &&& wanted == path
        },
        Message::FileCreated { path, content } => {
            &&& task is Idle
            &&& match upload_of(before.current_dir@, path@, content) {
                Ok((target, id, entry)) => taken_in(before, target, id, entry, after),
                Err(_) => after == before,
            }
        },
    }
}

impl Editing {
    /// Takes a message and says what is to happen next. The session never
    /// touches the disk: a file leaves the world only on the news that it is
    /// gone from disk, and comes into it only with what was read of it.
    pub fn update(&mut self, message: Message) -> (task: Task)
        requires
            old(self).wf(),
            message matches Message::ToolBar(toolbar::Message::ProjectRead { root, .. })
                ==> file_name_of(root@) is Some,
        ensures
            final(self).wf(),
            step(*old(self), message, *final(self), task),
    {
        match message {
            Message::CachedProject(main) => {
                match main {
                    Some(main_path) => Task::Done(
                        Message::FileTree(file_tree::Message::ChangeMainFile(main_path)),
                    ),
                    None => Task::Idle,
                }
            },
            Message::PopUp(message) => self.update_pop_up(message),
            Message::FileDeleted { id, outcome, listings } => self.update_deleted(
                id,
                outcome,
                listings,
            ),
            Message::DebugSpace(message) => match message {
                debug::Message::ShowErrors(debug_zone) => {
                    self.debug = Some(debug_zone);
                    Task::Idle
                },
                debug::Message::HideErrors => {
                    self.debug = None;
                    Task::Idle
                },
            },
            Message::ApplyAutocomplete(_selected, completion) => {
                self.autocompletion_ctx.completions = None;
                Task::Paste(
                    apply_to(&completion, self.autocompletion_ctx.cursor, self.autocompletion_ctx.pos),
                )
            },
            Message::ShowAutocomplete(pos, completions) => {
                if completions.len() > 0 {
                    self.autocompletion_ctx.pos = pos;
                    self.autocompletion_ctx.completions = Some(completions);
                }
                Task::Idle
            },
            Message::Autocomplete => {
                let id = match &self.current.file_id {
                    Some(id) => Some(id.copy()),
                    None => None,
                };
                match id {
                    Some(current_file_id) => {
                        self.flush_current();
                        if self.typst.source(&current_file_id).is_ok() {
                            Task::Complete(current_file_id)
                        } else {
                            Task::Idle
                        }
                    },
                    None => Task::Idle,
                }
            },
            Message::Completed { cursor, pos, start, completions } => {
                let offered = match &start {
                    Some(word) => autocomplete(pos, Some(word.as_str()), completions),
                    None => autocomplete(pos, None, completions),
                };
                match offered {
                    Some((pos, completions)) => {
                        self.autocompletion_ctx.cursor = cursor;
                        Task::Done(Message::ShowAutocomplete(pos, completions))
                    },
                    None => Task::Idle,
                }
            },
            Message::ActionPerformed { is_edit, text } => {
                self.current.buffer.content = text;
                if self.current.buffer.is_saved && is_edit {
                    self.current.buffer.is_saved = false;
                }
                Task::Idle
            },
            Message::Compiled(result) => match result {
                Ok(document) => {
                    self.document = document;
                    Task::Done(Message::PreviewLoaded)
                },
                Err(err) => Task::Done(
                    Message::DebugSpace(debug::Message::ShowErrors(DebugZone::new(err.to_string()))),
                ),
            },
            Message::PreviewLoaded => Task::Both(
                Box::new(Task::Done(Message::Preview(preview::Message::ReloadPages))),
                Box::new(Task::Done(Message::DebugSpace(debug::Message::HideErrors))),
            ),
            Message::Preview(message) => {
                match self.preview.update(message, &self.document) {
                    preview::Task::Idle => Task::Idle,
                    preview::Task::ReloadPages => Task::Done(
                        Message::Preview(preview::Message::ReloadPages),
                    ),
                    preview::Task::Fetch { pages_to_render, zoom } => Task::Fetch {
                        pages_to_render,
                        zoom,
                    },
                }
            },
            Message::ToolBar(message) => self.update_tool_bar(message),
            Message::FileTree(message) => self.update_file_tree(message),
            Message::BufferLoaded { path, loaded } => {
                match TideWorld::id_from_path(&path, &self.current_dir) {
                    Some(id) => match loaded {
                        Ok(text) => {
                            self.buffers.insert(id, Buffer::from_path(text));
                            Task::Done(
                                Message::FileTree(file_tree::Message::ChangeCurrentFile(path)),
                            )
                        },
                        Err(_) => {
                            let text = path.to_text();
                            notice(
                                PopUpType::Warning,
                                "Can't open file",
                                crate::file_manager::export::errors::append_text(
                                    "We can't open and preview this kind of file yet.\n",
                                    text.as_str(),
                                ),
                            )
                        },
                    },
                    None => Task::Idle,
                }
            },
            Message::FileModal(message, exists) => {
                let asked = self.file_modal.update(message, exists);
                let task = match asked {
                    modal::Task::CreateFile(path) => Task::Done(Message::CreateFile(path)),
                    _ => Task::Idle,
                };
                assert(carries_file(asked, task));
                task
            },
            Message::ProjectModal(message, exists) => {
                let asked = self.project_modal.update(message, exists);
                let task = match asked {
                    modal::Task::PickFolder => Task::PickFolder,
                    modal::Task::CreateProject => {
                        match self.project_modal.create_project(false) {
                            Ok(plan) => Task::CreateProject(plan),
                            Err(_) => Task::Idle,
                        }
                    },
                    modal::Task::OpenProject(path) => Task::Done(
                        Message::ToolBar(toolbar::Message::OpenProject(Some(path), None)),
                    ),
                    _ => Task::Idle,
                };
                assert(carries_project(self.project_modal, asked, task));
                task
            },
            Message::CreateFile(path) => Task::CreateFile(path),
            Message::FileCreated { path, content } => {
                let _ = self.upload_file(&path, content);
                Task::Idle
            },
        }
    }
}

/// A world without files, whose main file is `main.typ`.
fn init_world(fonts: FontCatalog) -> (world: TideWorld)
    ensures
        world.wf(),
        world@.main == normalized(path_of("main.typ"@).parts),
        world@.entries == Map::<Seq<Seq<char>>, EntryView>::empty(),
        world@.fonts == fonts@,
{
    let main = FsPath::parse("main.typ");
    let main_id = VirtualId::new(&main);
    TideWorld::new(main_id, None, fonts)
}

} // verus!
