//! Files on their way into a project: what was read from disk becomes a
//! source or an asset under the identifier of its path.

use crate::file_manager::file::get_relative_path;
use crate::identity::{to_virtual, VirtualId};
use crate::path::{extension_of, file_name_of, FsPath, PathView};
use crate::text::same_text;
use crate::world::{EntryView, Source};
use vstd::prelude::*;

verus! {

/// A file that was imported, as an asset or as a source.
#[derive(Clone, Debug, PartialEq, Eq)]
pub enum ImportedFile {
    /// A binary file, such as an image.
    Asset {
        /// The identifier of the file within the project.
        file_id: VirtualId,
        /// The bytes of the file.
        bytes: Vec<u8>,
    },
    /// A source file.
    TypstSource {
        /// The identifier of the file within the project.
        file_id: VirtualId,
        /// The source itself.
        source: Source,
    },
}

impl ImportedFile {
    /// The identifier under which the file goes into a world.
    pub open spec fn spec_id(&self) -> Seq<Seq<char>> {
        match self {
            ImportedFile::Asset { file_id, .. } => file_id@,
            ImportedFile::TypstSource { file_id, .. } => file_id@,
        }
    }

    /// What the file puts into a world.
    pub open spec fn spec_entry(&self) -> EntryView {
        match self {
            ImportedFile::Asset { bytes, .. } => EntryView::Asset(bytes@),
            ImportedFile::TypstSource { source, .. } => EntryView::Source(source.spec_text()),
        }
    }

    /// A copy of the file.
    pub fn copy(&self) -> (file: ImportedFile)
        ensures
            file.spec_id() == self.spec_id(),
            file.spec_entry() == self.spec_entry(),
    {
        match self {
            ImportedFile::Asset { file_id, bytes } => ImportedFile::Asset {
                file_id: file_id.copy(),
                bytes: crate::world::copy_bytes(bytes),
            },
            ImportedFile::TypstSource { file_id, source } => ImportedFile::TypstSource {
                file_id: file_id.copy(),
                source: Source::new(source.id().copy(), String::from_str(source.text())),
            },
        }
    }
}

/// What was read of a file: text, or bytes as they are.
#[derive(Clone, Debug, PartialEq, Eq)]
pub enum FileContent {
    Text(String),
    Bytes(Vec<u8>),
}

/// Why a file that was read did not become part of the project.
#[derive(Clone, Copy, Debug, PartialEq, Eq, Structural)]
pub enum LoadError {
    /// The file name has no extension to tell what the file is.
    NoExtension,
    /// A source file whose content is no text.
    InvalidData,
    /// The file does not lie under the project root.
    NotFound,
}

/// How a file has to be read.
#[derive(Clone, Copy, Debug, PartialEq, Eq, Structural)]
pub enum FileKind {
    /// A source: read as text.
    Source,
    /// An asset: read as bytes.
    Asset,
}

/// The extension that marks a source file.
pub open spec fn source_extension() -> Seq<char> {
    seq!['t', 'y', 'p']
}

/// The extension of the path's file name.
pub open spec fn extension_at(path: PathView) -> Option<Seq<char>> {
    match file_name_of(path) {
        Some(name) => extension_of(name),
        None => None,
    }
}

/// How the file at `path` has to be read, by its extension; none where the
/// name has no extension.
pub open spec fn kind_of(path: PathView) -> Option<FileKind> {
    match extension_at(path) {
        Some(ext) => if ext == source_extension() {
            Some(FileKind::Source)
        } else {
            Some(FileKind::Asset)
        },
        None => None,
    }
}

/// What importing a file that was read gives.
pub open spec fn load_of(path: PathView, root: PathView, content: FileContent) -> Result<
    (Seq<Seq<char>>, EntryView),
    LoadError,
> {
    match kind_of(path) {
        None => Err(LoadError::NoExtension),
        Some(kind) => {
            if kind == FileKind::Source && content is Bytes {
                Err(LoadError::InvalidData)
            } else {
                match to_virtual(root, path) {
                    None => Err(LoadError::NotFound),
                    Some(id) => Ok(
                        (
                            id,
                            match kind {
                                FileKind::Source => EntryView::Source(content->Text_0@),
                                FileKind::Asset => EntryView::Asset(
                                    match content {
                                        FileContent::Text(text) => vstd::utf8::encode_utf8(text@),
                                        FileContent::Bytes(bytes) => bytes@,
                                    },
                                ),
                            },
                        ),
                    ),
                }
            }
        },
    }
}

/// How the file at `path` has to be read.
pub fn file_kind(path: &FsPath) -> (kind: Option<FileKind>)
    ensures
        kind == kind_of(path@),
{
    match path.extension() {
        Some(ext) => {
            proof {
                reveal_strlit("typ");
                assert("typ"@ =~= source_extension());
            }
            if same_text(ext.as_str(), "typ") {
                Some(FileKind::Source)
            } else {
                Some(FileKind::Asset)
            }
        },
        None => None,
    }
}

/// Makes of a file that was read a source or an asset of the project at
/// `root`, by the extension of its name.
pub fn load_file(path: &FsPath, root: &FsPath, content: FileContent) -> (loaded: Result<
    ImportedFile,
    LoadError,
>)
    ensures
        match load_of(path@, root@, content) {
            Ok((id, entry)) => loaded matches Ok(file) && file.spec_id() == id && file.spec_entry()
                == entry,
            Err(error) => loaded == Err::<ImportedFile, LoadError>(error),
        },
{
    match file_kind(path) {
        None => Err(LoadError::NoExtension),
        Some(FileKind::Source) => match content {
            FileContent::Bytes(_) => Err(LoadError::InvalidData),
            FileContent::Text(text) => load_source_file(path, root, text),
        },
        Some(FileKind::Asset) => {
            let bytes = match content {
                FileContent::Text(text) => text.as_str().as_bytes_vec(),
                FileContent::Bytes(bytes) => bytes,
            };
            match get_relative_path(root, path) {
                None => Err(LoadError::NotFound),
                Some(relative) => Ok(
                    ImportedFile::Asset { file_id: VirtualId::new(&relative), bytes },
                ),
            }
        },
    }
}

/// Makes a source of the project at `root` of a text that was read.
fn load_source_file(path: &FsPath, root: &FsPath, content: String) -> (loaded: Result<
    ImportedFile,
    LoadError,
>)
    ensures
        match to_virtual(root@, path@) {
            Some(id) => loaded matches Ok(file) && file.spec_id() == id && file.spec_entry()
                == EntryView::Source(content@),
            None => loaded == Err::<ImportedFile, LoadError>(LoadError::NotFound),
        },
{
    match get_relative_path(root, path) {
        None => Err(LoadError::NotFound),
        Some(relative) => {
            let id = VirtualId::new(&relative);
            let source = Source::new(id.copy(), content);
            Ok(ImportedFile::TypstSource { file_id: id, source })
        },
    }
}

/// The entries that the files of a directory give, in the order in which
/// they were read. A file that cannot be imported is passed over.
pub open spec fn repo_of(files: Seq<(FsPath, FileContent)>, root: PathView) -> Seq<
    (Seq<Seq<char>>, EntryView),
>
    decreases files.len(),
{
    if files.len() == 0 {
        Seq::empty()
    } else {
        let before = repo_of(files.drop_last(), root);
        match load_of(files.last().0@, root, files.last().1) {
            Ok(pair) => before.push(pair),
            Err(_) => before,
        }
    }
}

/// What a list of imported files puts into a world.
pub open spec fn loaded_view(files: Seq<ImportedFile>) -> Seq<(Seq<Seq<char>>, EntryView)> {
    Seq::new(files.len(), |i: int| (files[i].spec_id(), files[i].spec_entry()))
}

/// Imports every file of a directory that was read; those that cannot be
/// imported are passed over.
pub fn load_repo(files: Vec<(FsPath, FileContent)>, root: &FsPath) -> (loaded: Vec<ImportedFile>)
    ensures
        loaded_view(loaded@) == repo_of(files@, root@),
{
    let mut loaded: Vec<ImportedFile> = Vec::new();
    let mut files = files;
    let ghost all = files@;
    let mut rest: Vec<(FsPath, FileContent)> = Vec::new();
    // Turn the list over so that each file can be taken out in reading order.
    while files.len() > 0
        invariant
            all == files@ + rest@.reverse(),
        decreases files.len(),
    {
        let ghost before = files@;
        let ghost before_rest = rest@;
        let item = files.pop().unwrap();
        rest.push(item);
        proof {
            assert(before =~= files@.push(item));
            assert(rest@.reverse() =~= seq![item] + before_rest.reverse());
            assert(all =~= files@ + rest@.reverse());
        }
    }
    assert(all =~= rest@.reverse());
    let ghost mut done: Seq<(FsPath, FileContent)> = Seq::empty();
    assert(loaded_view(loaded@) =~= repo_of(done, root@));
    while rest.len() > 0
        invariant
            all == done + rest@.reverse(),
            loaded_view(loaded@) == repo_of(done, root@),
        decreases rest.len(),
    {
        let ghost before_rest = rest@;
        let ghost before_loaded = loaded@;
        let item = rest.pop().unwrap();
        let (path, content) = item;
        proof {
            assert(before_rest =~= rest@.push(item));
            assert(before_rest.reverse() =~= seq![item] + rest@.reverse());
            assert(done.push(item).drop_last() =~= done);
            assert(all =~= done.push(item) + rest@.reverse());
        }
        match load_file(&path, root, content) {
            Ok(file) => {
                loaded.push(file);
                proof {
                    assert(loaded_view(loaded@) =~= loaded_view(before_loaded).push(
                        (file.spec_id(), file.spec_entry()),
                    ));
                }
            },
            Err(_) => {},
        }
        proof {
            done = done.push(item);
        }
    }
    assert(all =~= done);
    loaded
}

} // verus!
