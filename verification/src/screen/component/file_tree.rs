//! The tree of the files of a project, as the side bar shows it: which
//! directories are open, what was found in them, and which file is the main
//! file, which is selected and which was clicked. The tree decides; the
//! directories are read by whoever shows it, who hands over what was found.

use crate::order::{is_permutation, sort_order, sorts};
use crate::path::{file_name_of, FsPath, PathView};
use crate::text::{same_text, texts};
use vstd::prelude::*;

verus! {

/// What happens in the tree.
#[derive(Debug, PartialEq, Eq)]
pub enum Message {
    /// The file at the path is to be the main file.
    ChangeMainFile(FsPath),
    /// A directory was clicked; this is what was read of it.
    DirClick(DirListing),
    /// The file at the path is to be shown in the editor.
    ChangeCurrentFile(FsPath),
    /// The file at the path was clicked for its menu.
    FileClick(FsPath),
    /// The file at the path is to be deleted.
    DeleteFile(FsPath),
    /// The pointer left the file.
    FileExit,
}

/// What a file of the tree is: where it is and what it is called.
pub struct FileView {
    pub path: PathView,
    pub name: Seq<char>,
}

/// What a directory of the tree is. Its directories and files are none
/// until the directory was opened for the first time.
pub struct DirView {
    pub path: PathView,
    pub name: Seq<char>,
    pub dirs: Option<Seq<DirView>>,
    pub files: Option<Seq<FileView>>,
    pub is_open: bool,
}

/// What was found in a directory.
pub struct ListingView {
    pub path: PathView,
    pub dirs: Seq<PathView>,
    pub files: Seq<PathView>,
}

/// What a file tree is.
pub struct TreeView {
    pub file_system: DirView,
    pub main_path: Option<PathView>,
    pub selected_path: Option<PathView>,
    pub clicked_path: Option<PathView>,
}

/// The file at a path, called by the last name of the path.
pub open spec fn file_at(path: PathView) -> FileView {
    FileView { path, name: file_name_of(path).unwrap() }
}

/// The directory at a path, closed, with nothing known of what is in it.
pub open spec fn closed_dir_at(path: PathView) -> DirView {
    DirView { path, name: file_name_of(path).unwrap(), dirs: None, files: None, is_open: false }
}

/// Whether `out` holds the items in the rising order of their keys, items
/// of equal keys as they came.
pub open spec fn arranged<T>(items: Seq<T>, keys: Seq<Seq<char>>, fold: bool, out: Seq<T>) -> bool {
    exists|order: Seq<usize>|
        #![trigger is_permutation(order, items.len() as int)]
        is_permutation(order, items.len() as int) && sorts(order, keys, fold) && out == Seq::new(
            items.len(),
            |i: int| items[order[i] as int],
        )
}

/// The last names of paths.
pub open spec fn names_at(paths: Seq<PathView>) -> Seq<Seq<char>> {
    Seq::new(paths.len(), |i: int| file_name_of(paths[i]).unwrap())
}

/// Whether `files` are the files at `paths`, by name, small and capital
/// letters alike.
pub open spec fn lists_files(paths: Seq<PathView>, files: Seq<FileView>) -> bool {
    arranged(Seq::new(paths.len(), |i: int| file_at(paths[i])), names_at(paths), true, files)
}

/// Whether `dirs` are the directories at `paths`, closed, by name, small and
/// capital letters alike.
pub open spec fn lists_dirs(paths: Seq<PathView>, dirs: Seq<DirView>) -> bool {
    arranged(Seq::new(paths.len(), |i: int| closed_dir_at(paths[i])), names_at(paths), true, dirs)
}

/// The names of files.
pub open spec fn file_names(files: Seq<FileView>) -> Seq<Seq<char>> {
    Seq::new(files.len(), |i: int| files[i].name)
}

/// The files found at `path` among what was read; none where `path` was
/// not read.
pub open spec fn files_found(listings: Seq<ListingView>, path: PathView) -> Seq<PathView>
    decreases listings.len(),
{
    if listings.len() == 0 {
        Seq::empty()
    } else if listings[0].path == path {
        listings[0].files
    } else {
        files_found(listings.skip(1), path)
    }
}

/// Whether `after` is `before` with the directory at `path` opened or
/// closed. A directory opened for the first time gets what was found in it;
/// one that was open before keeps what it had. The first directory on the
/// way down whose path is `path` is the one, and nothing below it changes.
pub open spec fn folded(before: DirView, path: PathView, found: ListingView, after: DirView) -> bool
    decreases before,
{
    &&& after.path == before.path
    &&& after.name == before.name
    &&& if before.path == path {
        &&& after.is_open == !before.is_open
        &&& if before.is_open {
            after.dirs == before.dirs && after.files == before.files
        } else {
            &&& match before.dirs {
                Some(dirs) => after.dirs == Some(dirs),
                None => after.dirs is Some && lists_dirs(found.dirs, after.dirs.unwrap()),
            }
            &&& match before.files {
                Some(files) => after.files == Some(files),
                None => after.files is Some && lists_files(found.files, after.files.unwrap()),
            }
        }
    } else {
        &&& after.is_open == before.is_open
        &&& after.files == before.files
        &&& match before.dirs {
            Some(dirs) => after.dirs is Some && after.dirs.unwrap().len() == dirs.len()
                && forall|i: int|
                0 <= i < dirs.len() ==> folded(
                    #[trigger] dirs[i],
                    path,
                    found,
                    after.dirs.unwrap()[i],
                ),
            None => after.dirs is None,
        }
    }
}

/// Whether `after` is `before` with its files read again: a directory whose
/// files are known gets the files found at its path and is done; one whose
/// files are not known passes the question down to its directories.
pub open spec fn reloaded(before: DirView, listings: Seq<ListingView>, after: DirView) -> bool
    decreases before,
{
    &&& after.path == before.path
    &&& after.name == before.name
    &&& after.is_open == before.is_open
    &&& if before.files is Some {
        &&& after.dirs == before.dirs
        &&& after.files is Some
        &&& lists_files(files_found(listings, before.path), after.files.unwrap())
    } else {
        &&& after.files is None
        &&& match before.dirs {
            Some(dirs) => after.dirs is Some && after.dirs.unwrap().len() == dirs.len()
                && forall|i: int|
                0 <= i < dirs.len() ==> reloaded(
                    #[trigger] dirs[i],
                    listings,
                    after.dirs.unwrap()[i],
                ),
            None => after.dirs is None,
        }
    }
}

/// What was read of a directory: its path, and the paths of the directories
/// and of the files in it. Every path in it ends in a name.
#[derive(Debug, PartialEq, Eq)]
pub struct DirListing {
    path: FsPath,
    dirs: Vec<FsPath>,
    files: Vec<FsPath>,
}

/// The views of paths.
pub open spec fn path_views(paths: Seq<FsPath>) -> Seq<PathView> {
    Seq::new(paths.len(), |i: int| paths[i]@)
}

/// Whether every path ends in a name.
pub open spec fn all_named(paths: Seq<PathView>) -> bool {
    forall|i: int| 0 <= i < paths.len() ==> file_name_of(#[trigger] paths[i]) is Some
}

impl View for DirListing {
    type V = ListingView;

    closed spec fn view(&self) -> ListingView {
        ListingView {
            path: self.path@,
            dirs: path_views(self.dirs@),
            files: path_views(self.files@),
        }
    }
}

fn every_named(paths: &Vec<FsPath>) -> (yes: bool)
    ensures
        yes == all_named(path_views(paths@)),
{
    let mut i: usize = 0;
    while i < paths.len()
        invariant
            i <= paths.len(),
            forall|k: int| 0 <= k < i ==> file_name_of(#[trigger] path_views(paths@)[k]) is Some,
        decreases paths.len() - i,
    {
        if paths[i].file_name().is_none() {
            assert(file_name_of(path_views(paths@)[i as int]) is None);
            return false;
        }
        i += 1;
    }
    true
}

impl DirListing {
    #[verifier::type_invariant]
    spec fn named(self) -> bool {
        all_named(path_views(self.dirs@)) && all_named(path_views(self.files@))
    }

    /// The directory that was read.
    pub fn path(&self) -> (path: &FsPath)
        ensures
            path@ == self@.path,
    {
        &self.path
    }

    /// What was read of the directory at `path`; none where a path among
    /// what was found does not end in a name.
    pub fn new(path: FsPath, dirs: Vec<FsPath>, files: Vec<FsPath>) -> (listing: Option<DirListing>)
        ensures
            listing is Some <==> all_named(path_views(dirs@)) && all_named(path_views(files@)),
            listing matches Some(l) ==> l@ == (ListingView {
                path: path@,
                dirs: path_views(dirs@),
                files: path_views(files@),
            }),
    {
        if every_named(&dirs) && every_named(&files) {
            Some(DirListing { path, dirs, files })
        } else {
            None
        }
    }
}

/// A file of the tree.
#[derive(Clone, Debug, PartialEq, Eq)]
pub struct File {
    path: FsPath,
    name: String,
}

impl View for File {
    type V = FileView;

    closed spec fn view(&self) -> FileView {
        FileView { path: self.path@, name: self.name@ }
    }
}

impl File {
    /// The file at `path`, called by the last name of the path.
    pub fn new(path: &FsPath) -> (file: File)
        requires
            file_name_of(path@) is Some,
        ensures
            file@ == file_at(path@),
    {
        let name = path.file_name().unwrap();
        Self { path: path.copy(), name }
    }

    /// Where the file is.
    pub fn path(&self) -> (path: &FsPath)
        ensures
            path@ == self@.path,
    {
        &self.path
    }

    /// What the file is called.
    pub fn name(&self) -> (name: &str)
        ensures
            name@ == self@.name,
    {
        self.name.as_str()
    }

    /// A copy of the file.
    pub fn copy(&self) -> (file: File)
        ensures
            file@ == self@,
    {
        Self { path: self.path.copy(), name: self.name.clone() }
    }
}

/// The pictures that stand for files in the tree.
#[derive(Clone, Copy, Debug, PartialEq, Eq, Structural)]
pub enum FileIcon {
    /// A picture.
    Image,
    /// A PDF.
    Pdf,
    /// A bibliography or a manifest.
    Book,
    /// Anything else.
    Text,
}

/// The picture for a file of the given extension.
pub open spec fn icon_of(extension: Option<Seq<char>>) -> FileIcon {
    match extension {
        Some(ext) => if ext == "png"@ || ext == "jpg"@ || ext == "jpeg"@ {
            FileIcon::Image
        } else if ext == "pdf"@ {
            FileIcon::Pdf
        } else if ext == "bib"@ || ext == "toml"@ {
            FileIcon::Book
        } else {
            FileIcon::Text
        },
        None => FileIcon::Text,
    }
}

impl File {
    /// The picture that stands for the file, by the extension of its path.
    pub fn icon(&self) -> (icon: FileIcon)
        ensures
            icon == icon_of(
                match file_name_of(self@.path) {
                    Some(name) => crate::path::extension_of(name),
                    None => None,
                },
            ),
    {
        match self.path.extension() {
            Some(ext) => {
                let ext = ext.as_str();
                if same_text(ext, "png") || same_text(ext, "jpg") || same_text(ext, "jpeg") {
                    FileIcon::Image
                } else if same_text(ext, "pdf") {
                    FileIcon::Pdf
                } else if same_text(ext, "bib") || same_text(ext, "toml") {
                    FileIcon::Book
                } else {
                    FileIcon::Text
                }
            },
            None => FileIcon::Text,
        }
    }
}

/// The views of files.
pub open spec fn file_views(files: Seq<File>) -> Seq<FileView> {
    Seq::new(files.len(), |i: int| files[i]@)
}

/// A directory of the tree.
#[derive(Debug)]
pub struct Dir {
    path: FsPath,
    name: String,
    dirs: Option<Vec<Dir>>,
    files: Option<Vec<File>>,
    is_open: bool,
}

/// The files at `paths`, by name, small and capital letters alike.
fn sorted_files(paths: &Vec<FsPath>) -> (files: Vec<File>)
    requires
        all_named(path_views(paths@)),
    ensures
        lists_files(path_views(paths@), file_views(files@)),
{
    let mut names: Vec<String> = Vec::new();
    let mut i: usize = 0;
    while i < paths.len()
        invariant
            i <= paths.len(),
            all_named(path_views(paths@)),
            names@.len() == i,
            forall|k: int|
                0 <= k < i ==> Some((#[trigger] names@[k])@) == file_name_of(paths@[k]@),
        decreases paths.len() - i,
    {
        assert(file_name_of(path_views(paths@)[i as int]) is Some);
        names.push(paths[i].file_name().unwrap());
        i += 1;
    }
    assert(texts(names@) =~= names_at(path_views(paths@)));
    let order = sort_order(&names, true);
    let mut files: Vec<File> = Vec::new();
    let mut j: usize = 0;
    while j < order.len()
        invariant
            j <= order.len(),
            order@.len() == paths@.len(),
            all_named(path_views(paths@)),
            forall|k: int| 0 <= k < order@.len() ==> #[trigger] order@[k] < paths@.len(),
            files@.len() == j,
            forall|k: int| 0 <= k < j ==> (#[trigger] files@[k])@ == file_at(paths@[order@[k] as int]@),
        decreases order.len() - j,
    {
        let at = order[j];
        assert(file_name_of(path_views(paths@)[at as int]) is Some);
        files.push(File::new(&paths[at]));
        j += 1;
    }
    proof {
        let items = Seq::new(paths@.len(), |i: int| file_at(path_views(paths@)[i]));
        assert(file_views(files@) =~= Seq::new(items.len(), |i: int| items[order@[i] as int]));
        assert(is_permutation(order@, items.len() as int));
    }
    files
}

/// The directories at `paths`, closed, by name, small and capital letters
/// alike.
fn sorted_dirs(paths: &Vec<FsPath>) -> (dirs: Vec<Dir>)
    requires
        all_named(path_views(paths@)),
    ensures
        lists_dirs(path_views(paths@), dir_views(dirs@)),
{
    let mut names: Vec<String> = Vec::new();
    let mut i: usize = 0;
    while i < paths.len()
        invariant
            i <= paths.len(),
            all_named(path_views(paths@)),
            names@.len() == i,
            forall|k: int|
                0 <= k < i ==> Some((#[trigger] names@[k])@) == file_name_of(paths@[k]@),
        decreases paths.len() - i,
    {
        assert(file_name_of(path_views(paths@)[i as int]) is Some);
        names.push(paths[i].file_name().unwrap());
        i += 1;
    }
    assert(texts(names@) =~= names_at(path_views(paths@)));
    let order = sort_order(&names, true);
    let mut dirs: Vec<Dir> = Vec::new();
    let mut j: usize = 0;
    while j < order.len()
        invariant
            j <= order.len(),
            order@.len() == paths@.len(),
            all_named(path_views(paths@)),
            forall|k: int| 0 <= k < order@.len() ==> #[trigger] order@[k] < paths@.len(),
            dirs@.len() == j,
            forall|k: int|
                0 <= k < j ==> (#[trigger] dirs@[k]).view() == closed_dir_at(
                    paths@[order@[k] as int]@,
                ),
        decreases order.len() - j,
    {
        let at = order[j];
        assert(file_name_of(path_views(paths@)[at as int]) is Some);
        dirs.push(Dir::new(paths[at].copy()));
        j += 1;
    }
    proof {
        let items = Seq::new(paths@.len(), |i: int| closed_dir_at(path_views(paths@)[i]));
        assert(dir_views(dirs@) =~= Seq::new(items.len(), |i: int| items[order@[i] as int]));
        assert(is_permutation(order@, items.len() as int));
    }
    dirs
}

/// The views of directories.
pub open spec fn dir_views(dirs: Seq<Dir>) -> Seq<DirView> {
    Seq::new(dirs.len(), |i: int| dirs[i].view())
}

fn find_files<'a>(listings: &'a Vec<DirListing>, path: &FsPath) -> (found: Option<&'a DirListing>)
    ensures
        match found {
            Some(listing) => listing@.files == files_found(listing_views(listings@), path@),
            None => files_found(listing_views(listings@), path@) == Seq::<PathView>::empty(),
        },
{
    let mut i: usize = 0;
    let ghost all = listing_views(listings@);
    assert(all.skip(0) =~= all);
    while i < listings.len()
        invariant
            i <= listings.len(),
            all == listing_views(listings@),
            files_found(all, path@) == files_found(all.skip(i as int), path@),
        decreases listings.len() - i,
    {
        proof {
            assert(all.skip(i as int)[0] == listings@[i as int]@);
            assert(all.skip(i as int).skip(1) =~= all.skip(i + 1));
        }
        if listings[i].path.same(path) {
            return Some(&listings[i]);
        }
        i += 1;
    }
    None
}

/// The views of listings.
pub open spec fn listing_views(listings: Seq<DirListing>) -> Seq<ListingView> {
    Seq::new(listings.len(), |i: int| listings[i]@)
}

impl Dir {
    /// What the directory is.
    pub closed spec fn view(&self) -> DirView
        decreases self,
    {
        DirView {
            path: self.path@,
            name: self.name@,
            dirs: match self.dirs {
                Some(dirs) => Some(
                    Seq::new(
                        dirs@.len(),
                        |i: int|
                            if 0 <= i < dirs@.len() {
                                dirs@[i].view()
                            } else {
                                arbitrary()
                            },
                    ),
                ),
                None => None,
            },
            files: match self.files {
                Some(files) => Some(file_views(files@)),
                None => None,
            },
            is_open: self.is_open,
        }
    }

    /// Where the directory is.
    pub fn path(&self) -> (path: &FsPath)
        ensures
            path@ == self.view().path,
    {
        &self.path
    }

    /// What the directory is called.
    pub fn name(&self) -> (name: &str)
        ensures
            name@ == self.view().name,
    {
        self.name.as_str()
    }

    /// Whether the directory is open.
    pub fn is_open(&self) -> (open: bool)
        ensures
            open == self.view().is_open,
    {
        self.is_open
    }

    /// The directories in the directory, once it was opened.
    pub fn dirs(&self) -> (dirs: Option<&Vec<Dir>>)
        ensures
            match self.view().dirs {
                Some(views) => dirs matches Some(list) && dir_views(list@) == views,
                None => dirs is None,
            },
    {
        match &self.dirs {
            Some(dirs) => {
                assert(self.view().dirs.unwrap() =~= dir_views(dirs@));
                Some(dirs)
            },
            None => None,
        }
    }

    /// The files in the directory, once it was opened.
    pub fn files(&self) -> (files: Option<&Vec<File>>)
        ensures
            match self.view().files {
                Some(views) => files matches Some(list) && file_views(list@) == views,
                None => files is None,
            },
    {
        match &self.files {
            Some(files) => Some(files),
            None => None,
        }
    }

    /// The directory at `path`, closed, with nothing known of what is in it.
    pub fn new(path: FsPath) -> (dir: Dir)
        requires
            file_name_of(path@) is Some,
        ensures
            dir.view() == closed_dir_at(path@),
    {
        let name = path.file_name().unwrap();
        Self { path, name, dirs: None, files: None, is_open: false }
    }

    /// Opens or closes the directory at `path`, here or further down.
    /// `found` is what was read at `path`.
    pub fn update(&mut self, path: &FsPath, found: &DirListing)
        ensures
            folded(old(self).view(), path@, found@, final(self).view()),
        decreases *old(self),
    {
        broadcast use vstd::std_specs::vec::axiom_vec_index_decreases;

        proof {
            use_type_invariant(found);
        }
        let ghost before = *old(self);
        if self.path.same(path) {
            self.is_open = !self.is_open;
            if self.is_open {
                if self.dirs.is_none() {
                    let dirs = sorted_dirs(&found.dirs);
                    let ghost listed = dir_views(dirs@);
                    self.dirs = Some(dirs);
                    assert(self.view().dirs.unwrap() =~= listed);
                }
                if self.files.is_none() {
                    self.files = Some(sorted_files(&found.files));
                }
            }
        } else {
            match &mut self.dirs {
                Some(dirs) => {
                    let ghost old_dirs = before.dirs.unwrap();
                    let mut i: usize = 0;
                    while i < dirs.len()
                        invariant
                            i <= dirs.len(),
                            before == *old(self),
                            before.dirs == Some(old_dirs),
                            dirs@.len() == old_dirs@.len(),
                            forall|k: int|
                                0 <= k < i ==> folded(
                                    old_dirs@[k].view(),
                                    path@,
                                    found@,
                                    (#[trigger] dirs@[k]).view(),
                                ),
                            forall|k: int|
                                i <= k < dirs@.len() ==> #[trigger] dirs@[k] == old_dirs@[k],
                        decreases dirs.len() - i,
                    {
                        assert(decreases_to!(before => before.dirs));
                        assert(decreases_to!(before.dirs => before.dirs->Some_0));
                        assert(decreases_to!(old_dirs => old_dirs[i as int]));
                        dirs[i].update(path, found);
                        i += 1;
                    }
                },
                None => {},
            }
            proof {
                if before.dirs is Some {
                    let old_dirs = before.dirs.unwrap();
                    let out = final(self).view().dirs.unwrap();
                    let was = before.view().dirs.unwrap();
                    assert forall|i: int| 0 <= i < was.len() implies folded(
                        #[trigger] was[i],
                        path@,
                        found@,
                        out[i],
                    ) by {
                        assert(was[i] == old_dirs@[i].view());
                    }
                }
            }
        }
    }

    /// Reads the files again: of this directory where its files are known,
    /// further down where they are not. `listings` is what was read.
    pub fn reload_files(&mut self, listings: &Vec<DirListing>)
        ensures
            reloaded(old(self).view(), listing_views(listings@), final(self).view()),
        decreases *old(self),
    {
        broadcast use vstd::std_specs::vec::axiom_vec_index_decreases;

        let ghost before = *old(self);
        if self.files.is_some() {
            let files = match find_files(listings, &self.path) {
                Some(listing) => {
                    proof {
                        use_type_invariant(listing);
                    }
                    sorted_files(&listing.files)
                },
                None => {
                    let none: Vec<FsPath> = Vec::new();
                    assert(path_views(none@) =~= Seq::<PathView>::empty());
                    sorted_files(&none)
                },
            };
            self.files = Some(files);
        } else {
            match &mut self.dirs {
                Some(dirs) => {
                    let ghost old_dirs = before.dirs.unwrap();
                    let mut i: usize = 0;
                    while i < dirs.len()
                        invariant
                            i <= dirs.len(),
                            before == *old(self),
                            before.dirs == Some(old_dirs),
                            dirs@.len() == old_dirs@.len(),
                            forall|k: int|
                                0 <= k < i ==> reloaded(
                                    old_dirs@[k].view(),
                                    listing_views(listings@),
                                    (#[trigger] dirs@[k]).view(),
                                ),
                            forall|k: int|
                                i <= k < dirs@.len() ==> #[trigger] dirs@[k] == old_dirs@[k],
                        decreases dirs.len() - i,
                    {
                        assert(decreases_to!(before => before.dirs));
                        assert(decreases_to!(before.dirs => before.dirs->Some_0));
                        assert(decreases_to!(old_dirs => old_dirs[i as int]));
                        dirs[i].reload_files(listings);
                        i += 1;
                    }
                },
                None => {},
            }
            proof {
                if before.dirs is Some {
                    let old_dirs = before.dirs.unwrap();
                    let out = final(self).view().dirs.unwrap();
                    let was = before.view().dirs.unwrap();
                    assert forall|i: int| 0 <= i < was.len() implies reloaded(
                        #[trigger] was[i],
                        listing_views(listings@),
                        out[i],
                    ) by {
                        assert(was[i] == old_dirs@[i].view());
                    }
                }
            }
        }
    }
}

/// The tree of the files of a project.
#[derive(Debug)]
pub struct FileTree {
    file_system: Dir,
    main_path: Option<FsPath>,
    /// The file that is open in the editor.
    pub selected_path: Option<FsPath>,
    clicked_path: Option<FsPath>,
}

/// The view of a path that may be missing.
pub open spec fn path_view(path: Option<FsPath>) -> Option<PathView> {
    match path {
        Some(p) => Some(p@),
        None => None,
    }
}

impl View for FileTree {
    type V = TreeView;

    closed spec fn view(&self) -> TreeView {
        TreeView {
            file_system: self.file_system.view(),
            main_path: path_view(self.main_path),
            selected_path: path_view(self.selected_path),
            clicked_path: path_view(self.clicked_path),
        }
    }
}

impl FileTree {
    /// The tree of the project at `root_path`: closed, with no main file and
    /// nothing selected or clicked.
    pub fn new(root_path: FsPath) -> (tree: FileTree)
        requires
            file_name_of(root_path@) is Some,
        ensures
            tree@ == (TreeView {
                file_system: closed_dir_at(root_path@),
                main_path: None,
                selected_path: None,
                clicked_path: None,
            }),
    {
        Self {
            file_system: Dir::new(root_path),
            main_path: None,
            selected_path: None,
            clicked_path: None,
        }
    }

    /// Adds the file at `path` to the files of the root, which then stand
    /// in the order of their names, files of one name as they came. A tree
    /// whose root was never opened stays as it is.
    pub fn add_file(&mut self, path: &FsPath)
        requires
            file_name_of(path@) is Some,
        ensures
            final(self)@.main_path == old(self)@.main_path,
            final(self)@.selected_path == old(self)@.selected_path,
            final(self)@.clicked_path == old(self)@.clicked_path,
            final(self)@.file_system.path == old(self)@.file_system.path,
            final(self)@.file_system.name == old(self)@.file_system.name,
            final(self)@.file_system.dirs == old(self)@.file_system.dirs,
            final(self)@.file_system.is_open == old(self)@.file_system.is_open,
            match old(self)@.file_system.files {
                Some(files) => final(self)@.file_system.files is Some && arranged(
                    files.push(file_at(path@)),
                    file_names(files.push(file_at(path@))),
                    false,
                    final(self)@.file_system.files.unwrap(),
                ),
                None => final(self)@.file_system.files is None,
            },
    {
        let file = File::new(path);
        match &self.file_system.files {
            Some(files) => {
                let mut names: Vec<String> = Vec::new();
                let mut i: usize = 0;
                while i < files.len()
                    invariant
                        i <= files.len(),
                        names@.len() == i,
                        forall|k: int| 0 <= k < i ==> (#[trigger] names@[k])@ == files@[k]@.name,
                    decreases files.len() - i,
                {
                    names.push(files[i].name.clone());
                    i += 1;
                }
                names.push(file.name.clone());
                let ghost items = file_views(files@).push(file@);
                assert(texts(names@) =~= file_names(items));
                let order = sort_order(&names, false);
                let mut sorted: Vec<File> = Vec::new();
                let mut j: usize = 0;
                while j < order.len()
                    invariant
                        j <= order.len(),
                        order@.len() == files@.len() + 1,
                        items == file_views(files@).push(file@),
                        forall|k: int| 0 <= k < order@.len() ==> #[trigger] order@[k] <= files@.len(),
                        sorted@.len() == j,
                        forall|k: int|
                            0 <= k < j ==> (#[trigger] sorted@[k])@ == items[order@[k] as int],
                    decreases order.len() - j,
                {
                    let at = order[j];
                    let next = if at < files.len() {
                        files[at].copy()
                    } else {
                        file.copy()
                    };
                    sorted.push(next);
                    j += 1;
                }
                proof {
                    assert(file_views(sorted@) =~= Seq::new(
                        items.len(),
                        |i: int| items[order@[i] as int],
                    ));
                    assert(is_permutation(order@, items.len() as int));
                }
                self.file_system.files = Some(sorted);
            },
            None => {},
        }
    }

    /// Reads the files of the tree again, after a file was deleted or
    /// changed from outside. `listings` is what was read of the directories.
    pub fn refresh(&mut self, listings: &Vec<DirListing>)
        ensures
            reloaded(
                old(self)@.file_system,
                listing_views(listings@),
                final(self)@.file_system,
            ),
            final(self)@.main_path == old(self)@.main_path,
            final(self)@.selected_path == old(self)@.selected_path,
            final(self)@.clicked_path == old(self)@.clicked_path,
    {
        self.file_system.reload_files(listings);
    }

    /// Opens or closes the directory at `path`. `found` is what was read at
    /// `path`.
    pub fn fold(&mut self, path: &FsPath, found: &DirListing)
        ensures
            folded(old(self)@.file_system, path@, found@, final(self)@.file_system),
            final(self)@.main_path == old(self)@.main_path,
            final(self)@.selected_path == old(self)@.selected_path,
            final(self)@.clicked_path == old(self)@.clicked_path,
    {
        self.file_system.update(path, found);
    }

    /// Makes the file at `path` the main file.
    pub fn change_main(&mut self, path: &FsPath)
        ensures
            final(self)@ == (TreeView { main_path: Some(path@), ..old(self)@ }),
    {
        let same = match &self.main_path {
            Some(current_path) => current_path.same(path),
            None => false,
        };
        if !same {
            self.main_path = Some(path.copy());
        }
    }

    /// Selects the file at `path`.
    pub fn change_selected(&mut self, path: &FsPath)
        ensures
            final(self)@ == (TreeView { selected_path: Some(path@), ..old(self)@ }),
    {
        let same = match &self.selected_path {
            Some(current_path) => current_path.same(path),
            None => false,
        };
        if !same {
            self.selected_path = Some(path.copy());
        }
    }

    /// Remembers the file that was clicked, or that none is.
    pub fn change_clicked(&mut self, path: Option<FsPath>)
        ensures
            final(self)@ == (TreeView { clicked_path: path_view(path), ..old(self)@ }),
    {
        match path {
            None => {
                self.clicked_path = None;
            },
            Some(path) => {
                let same = match &self.clicked_path {
                    Some(current_path) => current_path.same(&path),
                    None => false,
                };
                if !same {
                    self.clicked_path = Some(path);
                }
            },
        }
    }

    /// The root of the tree.
    pub fn file_system(&self) -> (root: &Dir)
        ensures
            root.view() == self@.file_system,
    {
        &self.file_system
    }

    /// The main file.
    pub fn main_path(&self) -> (path: Option<&FsPath>)
        ensures
            match self@.main_path {
                Some(view) => path matches Some(p) && p@ == view,
                None => path is None,
            },
    {
        match &self.main_path {
            Some(path) => Some(path),
            None => None,
        }
    }

    /// The file that is open in the editor.
    pub fn selected(&self) -> (path: Option<&FsPath>)
        ensures
            match self@.selected_path {
                Some(view) => path matches Some(p) && p@ == view,
                None => path is None,
            },
    {
        match &self.selected_path {
            Some(path) => Some(path),
            None => None,
        }
    }

    /// The file that was clicked.
    pub fn clicked_path(&self) -> (path: Option<&FsPath>)
        ensures
            match self@.clicked_path {
                Some(view) => path matches Some(p) && p@ == view,
                None => path is None,
            },
    {
        match &self.clicked_path {
            Some(path) => Some(path),
            None => None,
        }
    }
}

} // verus!
