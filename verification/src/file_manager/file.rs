//! Where things are: paths relative to a project, the directories of the
//! editor's environment, and the list of projects opened lately.

use crate::identity::{to_absolute, VirtualId};
use crate::path::{join_of, path_of, rest_of, text_of, under, well_named, FsPath, PathView};
use crate::text::{chars_of, join_text, joined, split, split_text, string_of, texts};
use vstd::prelude::*;

verus! {

/// How many projects the list of recent projects holds at most.
pub const MAX_CACHED_PROJECTS: usize = 5;

/// The path of `file_path` within `current_dir`, written from the root `/`;
/// none where `file_path` does not lie under `current_dir`.
pub fn get_relative_path(current_dir: &FsPath, file_path: &FsPath) -> (relative: Option<FsPath>)
    ensures
        relative is Some <==> under(current_dir@, file_path@),
        relative matches Some(p) ==> p@ == (PathView {
            absolute: true,
            parts: rest_of(current_dir@, file_path@).parts,
        }),
{
    match file_path.strip_prefix(current_dir) {
        Some(rest) => {
            let root = FsPath::assemble(true, Vec::new());
            let relative = FsPath::assemble(false, crate::path::copy_strings(rest.parts()));
            let out = root.join(&relative);
            assert(out@.parts =~= rest@.parts);
            Some(out)
        },
        None => None,
    }
}

/// The path on disk of the file that `id` names in the project at `dir_path`.
pub fn disk_path(id: &VirtualId, dir_path: &FsPath) -> (path: FsPath)
    ensures
        path@ == to_absolute(dir_path@, id@),
{
    dir_path.join(&id.as_rootless_path())
}

/// What was found of the editor's own directory: where it is, if it could
/// be found or made, and which of its parts are there.
#[derive(Clone, Debug, PartialEq, Eq)]
pub struct Environment {
    root: Option<FsPath>,
    has_templates: bool,
    has_fonts: bool,
    has_config: bool,
}

/// What an environment is.
pub struct EnvironmentView {
    pub root: Option<PathView>,
    pub has_templates: bool,
    pub has_fonts: bool,
    pub has_config: bool,
}

impl View for Environment {
    type V = EnvironmentView;

    closed spec fn view(&self) -> EnvironmentView {
        EnvironmentView {
            root: match self.root {
                Some(root) => Some(root@),
                None => None,
            },
            has_templates: self.has_templates,
            has_fonts: self.has_fonts,
            has_config: self.has_config,
        }
    }
}

/// The path of `name` directly in the environment, where there is an
/// environment and `present` says that `name` is there.
pub open spec fn env_path_of(root: Option<PathView>, present: bool, name: Seq<char>) -> Option<
    PathView,
> {
    match root {
        Some(root) => if present {
            Some(join_of(root, path_of(name)))
        } else {
            None
        },
        None => None,
    }
}

impl Environment {
    /// An environment at `root`, with what was found in it: a directory of
    /// templates, a directory of fonts, a configuration file.
    pub fn new(root: Option<FsPath>, has_templates: bool, has_fonts: bool, has_config: bool) -> (env:
        Environment)
        ensures
            env@ == (EnvironmentView {
                root: match root {
                    Some(r) => Some(r@),
                    None => None,
                },
                has_templates,
                has_fonts,
                has_config,
            }),
    {
        Environment { root, has_templates, has_fonts, has_config }
    }

    /// The directory of the environment.
    pub fn root(&self) -> (root: Option<&FsPath>)
        ensures
            match self@.root {
                Some(view) => root matches Some(r) && r@ == view,
                None => root is None,
            },
    {
        match &self.root {
            Some(root) => Some(root),
            None => None,
        }
    }

    fn child(&self, present: bool, name: &str) -> (path: Option<FsPath>)
        ensures
            match env_path_of(self@.root, present, name@) {
                Some(view) => path matches Some(p) && p@ == view,
                None => path is None,
            },
    {
        match &self.root {
            Some(root) => if present {
                Some(root.join_name(name))
            } else {
                None
            },
            None => None,
        }
    }
}

/// The directory of templates in the environment, if it is there.
pub fn get_templates_path(env: &Environment) -> (path: Option<FsPath>)
    ensures
        match env_path_of(env@.root, env@.has_templates, "templates"@) {
            Some(view) => path matches Some(p) && p@ == view,
            None => path is None,
        },
{
    env.child(env.has_templates, "templates")
}

/// The directory of fonts in the environment, if it is there.
pub fn get_fonts_path(env: &Environment) -> (path: Option<FsPath>)
    ensures
        match env_path_of(env@.root, env@.has_fonts, "fonts"@) {
            Some(view) => path matches Some(p) && p@ == view,
            None => path is None,
        },
{
    env.child(env.has_fonts, "fonts")
}

/// The configuration file in the environment, if the user has written one.
pub fn get_config_path(env: &Environment) -> (path: Option<FsPath>)
    ensures
        match env_path_of(env@.root, env@.has_config, "config.toml"@) {
            Some(view) => path matches Some(p) && p@ == view,
            None => path is None,
        },
{
    env.child(env.has_config, "config.toml")
}

/// The file that holds the list of recent projects, wherever there is an
/// environment.
pub fn get_cache_path(env: &Environment) -> (path: Option<FsPath>)
    ensures
        match env_path_of(env@.root, true, "recent.cache"@) {
            Some(view) => path matches Some(p) && p@ == view,
            None => path is None,
        },
{
    env.child(true, "recent.cache")
}

/// A project in the list of recent projects.
#[derive(Clone, Debug, PartialEq, Eq)]
pub struct ProjectCache {
    /// The root directory of the project.
    pub root_path: FsPath,
    /// The main file of the project, if one was chosen.
    pub main: Option<FsPath>,
}

/// What a recent project is.
pub struct CacheView {
    pub root_path: PathView,
    pub main: Option<PathView>,
}

impl View for ProjectCache {
    type V = CacheView;

    open spec fn view(&self) -> CacheView {
        CacheView {
            root_path: self.root_path@,
            main: match self.main {
                Some(main) => Some(main@),
                None => None,
            },
        }
    }
}

impl ProjectCache {
    /// A recent project with the given root and main file.
    pub fn new(root_path: FsPath, main: Option<FsPath>) -> (project: ProjectCache)
        ensures
            project.root_path == root_path,
            project.main == main,
    {
        Self { root_path, main }
    }

    /// A copy of the project.
    pub fn copy(&self) -> (project: ProjectCache)
        ensures
            project@ == self@,
    {
        ProjectCache {
            root_path: self.root_path.copy(),
            main: match &self.main {
                Some(main) => Some(main.copy()),
                None => None,
            },
        }
    }
}

/// The views of a list of recent projects.
pub open spec fn cache_views(list: Seq<ProjectCache>) -> Seq<CacheView> {
    Seq::new(list.len(), |i: int| list[i]@)
}

/// A line without the carriage return that may end it.
pub open spec fn trimmed_line(line: Seq<char>) -> Seq<char> {
    if line.len() > 0 && line.last() == '\r' {
        line.drop_last()
    } else {
        line
    }
}

/// The lines of a text. A line that a line feed closes stands without the
/// carriage return that may come before the line feed. What follows the
/// last line feed is a line as it stands, unless it is empty.
pub open spec fn lines_of(s: Seq<char>) -> Seq<Seq<char>> {
    let fields = split(s, '\n');
    let closed = Seq::new((fields.len() - 1) as nat, |i: int| trimmed_line(fields[i]));
    if fields.last().len() == 0 {
        closed
    } else {
        closed.push(fields.last())
    }
}

/// The mark that stands for "no main file" in the list of recent projects.
pub open spec fn no_main() -> Seq<char> {
    seq!['?']
}

/// The project that one line of the list spells: the root before the first
/// comma, the main file after it unless that is missing or the mark `?`.
pub open spec fn record_of(line: Seq<char>) -> CacheView {
    let fields = split(line, ',');
    CacheView {
        root_path: path_of(fields[0]),
        main: if fields.len() < 2 || fields[1] == no_main() {
            None
        } else {
            Some(path_of(fields[1]))
        },
    }
}

/// The projects that the text of the list spells, line by line.
pub open spec fn recent_of(contents: Seq<char>) -> Seq<CacheView> {
    Seq::new(lines_of(contents).len(), |i: int| record_of(lines_of(contents)[i]))
}

/// The line that spells a project.
pub open spec fn line_of(project: CacheView) -> Seq<char> {
    text_of(project.root_path) + seq![','] + match project.main {
        Some(main) => text_of(main),
        None => no_main(),
    }
}

/// The text that spells a list of projects: a line each, line feeds between.
pub open spec fn cache_text_of(list: Seq<CacheView>) -> Seq<char> {
    joined(Seq::new(list.len(), |i: int| line_of(list[i])), '\n')
}

/// The projects of `list` whose root is not `root`, in order.
pub open spec fn without_root(list: Seq<CacheView>, root: PathView) -> Seq<CacheView>
    decreases list.len(),
{
    if list.len() == 0 {
        list
    } else if list.last().root_path == root {
        without_root(list.drop_last(), root)
    } else {
        without_root(list.drop_last(), root).push(list.last())
    }
}

/// The list with `project` remembered: a full list first loses its last
/// project, then every project of the same root leaves, then `project`
/// goes in front.
pub open spec fn remembered(list: Seq<CacheView>, project: CacheView) -> Seq<CacheView> {
    let room = if list.len() > MAX_CACHED_PROJECTS - 1 {
        list.drop_last()
    } else {
        list
    };
    seq![project] + without_root(room, project.root_path)
}

/// Taking a root out shortens a list or leaves it, and leaves no project of
/// that root; what stays was there before.
pub proof fn lemma_without_root(list: Seq<CacheView>, root: PathView)
    ensures
        without_root(list, root).len() <= list.len(),
        forall|i: int|
            0 <= i < without_root(list, root).len() ==> (#[trigger] without_root(
                list,
                root,
            )[i]).root_path != root,
        forall|i: int|
            0 <= i < without_root(list, root).len() ==> list.contains(
                #[trigger] without_root(list, root)[i],
            ),
        forall|i: int|
            0 <= i < list.len() && list[i].root_path != root ==> without_root(
                list,
                root,
            ).contains(#[trigger] list[i]),
    decreases list.len(),
{
    if list.len() > 0 {
        let init = list.drop_last();
        lemma_without_root(init, root);
        let out = without_root(list, root);
        assert forall|i: int| 0 <= i < out.len() implies list.contains(#[trigger] out[i]) by {
            if i < without_root(init, root).len() {
                let item = without_root(init, root)[i];
                assert(init.contains(item));
                let j = choose|j: int| 0 <= j < init.len() && init[j] == item;
                assert(list[j] == item);
            } else {
                assert(list[list.len() - 1] == out[i]);
            }
        }
        assert forall|i: int| 0 <= i < list.len() && list[i].root_path != root implies out.contains(
            #[trigger] list[i],
        ) by {
            if i < init.len() {
                assert(init[i] == list[i]);
                assert(without_root(init, root).contains(init[i]));
                let j = choose|j: int|
                    0 <= j < without_root(init, root).len() && without_root(init, root)[j]
                        == init[i];
                assert(out[j] == list[i]);
            } else {
                assert(out[out.len() - 1] == list[i]);
            }
        }
    }
}

/// The list of recent projects stays within its bound, has the project just
/// remembered in front, and names its root once.
pub proof fn lemma_remembered(list: Seq<CacheView>, project: CacheView)
    ensures
        remembered(list, project)[0] == project,
        list.len() <= MAX_CACHED_PROJECTS ==> remembered(list, project).len()
            <= MAX_CACHED_PROJECTS,
        forall|i: int|
            0 < i < remembered(list, project).len() ==> (#[trigger] remembered(
                list,
                project,
            )[i]).root_path != project.root_path,
{
    let room = if list.len() > MAX_CACHED_PROJECTS - 1 {
        list.drop_last()
    } else {
        list
    };
    lemma_without_root(room, project.root_path);
    let rest = without_root(room, project.root_path);
    assert forall|i: int| 0 < i < remembered(list, project).len() implies (#[trigger] remembered(
        list,
        project,
    )[i]).root_path != project.root_path by {
        assert(remembered(list, project)[i] == rest[i - 1]);
    }
}

/// A path that a line of the list can hold: its names can be spelled and
/// hold neither a comma nor the end of a line.
pub open spec fn writable(p: PathView) -> bool {
    &&& well_named(p.parts)
    &&& forall|i: int, j: int|
        0 <= i < p.parts.len() && 0 <= j < p.parts[i].len() ==> {
            let c = #[trigger] p.parts[i][j];
            c != ',' && c != '\n' && c != '\r'
        }
}

/// A project that the list can hold: its paths are writable, and its main
/// file is not spelled like the mark for "no main file".
pub open spec fn storable(project: CacheView) -> bool {
    &&& writable(project.root_path)
    &&& match project.main {
        Some(main) => writable(main) && text_of(main) != no_main(),
        None => true,
    }
}

/// The text of a writable path is free of commas and of ends of lines.
pub proof fn lemma_text_free(p: PathView, c: char)
    requires
        writable(p),
        c == ',' || c == '\n' || c == '\r',
    ensures
        forall|k: int| 0 <= k < text_of(p).len() ==> text_of(p)[k] != c,
{
    crate::text::lemma_joined_free(p.parts, '/', c);
}

/// The line that spells a storable project spells that project.
pub proof fn lemma_line_round_trip(project: CacheView)
    requires
        storable(project),
    ensures
        record_of(line_of(project)) == project,
        line_of(project).len() > 0,
        trimmed_line(line_of(project)) == line_of(project),
        forall|k: int| 0 <= k < line_of(project).len() ==> line_of(project)[k] != '\n',
{
    let root = text_of(project.root_path);
    let tail = match project.main {
        Some(main) => text_of(main),
        None => no_main(),
    };
    let line = line_of(project);
    lemma_text_free(project.root_path, ',');
    lemma_text_free(project.root_path, '\n');
    if let Some(main) = project.main {
        lemma_text_free(main, ',');
        lemma_text_free(main, '\n');
        lemma_text_free(main, '\r');
        crate::path::lemma_text_round_trip(main);
    }
    crate::path::lemma_text_round_trip(project.root_path);
    let head = root.push(',');
    assert(head =~= root + seq![',']);
    assert(head.drop_last() =~= root);
    crate::text::lemma_split_clean(root, ',');
    assert(split(head, ',') == seq![root].push(Seq::<char>::empty()));
    crate::text::lemma_split_append(head, tail, ',');
    assert(line =~= head + tail);
    let fields = split(line, ',');
    assert(seq![root].push(Seq::<char>::empty()).drop_last() =~= seq![root]);
    assert(Seq::<char>::empty() + tail =~= tail);
    assert(fields =~= seq![root, tail]);
    assert(fields[0] == root);
    assert(fields[1] == tail);
    assert(line[root.len() as int] == ',');
    if tail.len() > 0 {
        assert(line.last() == tail.last());
    } else {
        assert(line.last() == ',');
    }
}

/// The text that spells a list of storable projects spells that list: what
/// was written to the file is read back as it was.
pub proof fn lemma_recent_round_trip(list: Seq<CacheView>)
    requires
        forall|i: int| 0 <= i < list.len() ==> storable(#[trigger] list[i]),
    ensures
        recent_of(cache_text_of(list)) == list,
{
    let lines = Seq::new(list.len(), |i: int| line_of(list[i]));
    let text = cache_text_of(list);
    if list.len() == 0 {
        assert(text =~= Seq::<char>::empty());
        assert(split(text, '\n') =~= seq![Seq::<char>::empty()]);
        assert(lines_of(text) =~= Seq::<Seq<char>>::empty());
        assert(recent_of(text) =~= list);
    } else {
        assert forall|i: int, j: int|
            0 <= i < lines.len() && 0 <= j < lines[i].len() implies lines[i][j] != '\n' by {
            lemma_line_round_trip(list[i]);
        }
        crate::text::lemma_split_joined(lines, '\n');
        lemma_line_round_trip(list[list.len() - 1]);
        assert(lines.last() == line_of(list[list.len() - 1]));
        assert(lines_of(text) =~= lines) by {
            assert forall|i: int| 0 <= i < lines.len() implies trimmed_line(lines[i])
                == lines[i] by {
                lemma_line_round_trip(list[i]);
            }
            assert(lines.last().len() > 0);
        }
        assert forall|i: int| 0 <= i < list.len() implies recent_of(text)[i] == list[i] by {
            lemma_line_round_trip(list[i]);
        }
        assert(recent_of(text) =~= list);
    }
}

/// Reads the list of recent projects from the text of its file.
pub fn get_recent_paths(contents: &str) -> (paths: Vec<ProjectCache>)
    ensures
        cache_views(paths@) == recent_of(contents@),
{
    let mut lines = split_text(contents, '\n');
    let ghost fields = texts(lines@);
    let last = lines.pop().unwrap();
    assert(texts(lines@) =~= fields.drop_last());
    assert(last@ == fields.last());
    let mut paths: Vec<ProjectCache> = Vec::new();
    let mut i: usize = 0;
    while i < lines.len()
        invariant
            i <= lines.len(),
            fields.len() == lines@.len() + 1,
            fields.drop_last() == texts(lines@),
            paths@.len() == i,
            forall|k: int|
                0 <= k < i ==> (#[trigger] paths@[k])@ == record_of(trimmed_line(fields[k])),
        decreases lines.len() - i,
    {
        assert(fields[i as int] == texts(lines@)[i as int]);
        let line = trim_line(lines[i].as_str());
        paths.push(read_record(line.as_str()));
        i += 1;
    }
    if last.as_str().unicode_len() != 0 {
        paths.push(read_record(last.as_str()));
    }
    assert(cache_views(paths@) =~= recent_of(contents@));
    paths
}

/// Reads one line of the list.
fn read_record(line: &str) -> (project: ProjectCache)
    ensures
        project@ == record_of(line@),
{
    let elements = split_text(line, ',');
    let root_path = FsPath::parse(elements[0].as_str());
    let main = if elements.len() < 2 || is_no_main(elements[1].as_str()) {
        None
    } else {
        Some(FsPath::parse(elements[1].as_str()))
    };
    ProjectCache::new(root_path, main)
}

fn is_no_main(text: &str) -> (yes: bool)
    ensures
        yes == (text@ == no_main()),
{
    let chars = chars_of(text);
    let yes = chars.len() == 1 && chars[0] == '?';
    proof {
        if yes {
            assert(chars@ =~= no_main());
        }
    }
    yes
}

fn trim_line(line: &str) -> (out: String)
    ensures
        out@ == trimmed_line(line@),
{
    let mut chars = chars_of(line);
    if chars.len() > 0 && chars[chars.len() - 1] == '\r' {
        chars.pop();
    }
    string_of(&chars)
}

/// Remembers `project` in the list of recent projects: it goes in front, any
/// older mention of its root leaves, and a full list first loses its last.
pub fn cache_project(recent: Vec<ProjectCache>, project: ProjectCache) -> (projects: Vec<
    ProjectCache,
>)
    ensures
        cache_views(projects@) == remembered(cache_views(recent@), project@),
{
    let mut recent = recent;
    let ghost before = cache_views(recent@);
    if recent.len() > MAX_CACHED_PROJECTS - 1 {
        recent.pop();
        assert(cache_views(recent@) =~= before.drop_last());
    }
    let ghost room = cache_views(recent@);
    let mut projects: Vec<ProjectCache> = Vec::new();
    projects.push(project.copy());
    let mut i: usize = 0;
    assert(room.take(0) =~= Seq::<CacheView>::empty());
    assert(cache_views(projects@) =~= seq![project@] + without_root(
        room.take(0),
        project@.root_path,
    ));
    while i < recent.len()
        invariant
            i <= recent.len(),
            room == cache_views(recent@),
            cache_views(projects@) == seq![project@] + without_root(
                room.take(i as int),
                project@.root_path,
            ),
        decreases recent.len() - i,
    {
        proof {
            let upto = room.take(i + 1);
            assert(upto.drop_last() =~= room.take(i as int));
            assert(upto.last() == recent@[i as int]@);
        }
        if !recent[i].root_path.same(&project.root_path) {
            let ghost old_projects = projects@;
            projects.push(recent[i].copy());
            proof {
                assert(cache_views(projects@) =~= cache_views(old_projects).push(
                    recent@[i as int]@,
                ));
                assert(cache_views(projects@) =~= seq![project@] + without_root(
                    room.take(i + 1),
                    project@.root_path,
                ));
            }
        }
        i += 1;
    }
    assert(room.take(recent.len() as int) =~= room);
    projects
}

/// Spells the list of recent projects for its file: a line for each project,
/// root and main file with a comma between, `?` where there is no main file.
pub fn recent_paths_text(projects: &Vec<ProjectCache>) -> (text: String)
    ensures
        text@ == cache_text_of(cache_views(projects@)),
{
    let mut lines: Vec<String> = Vec::new();
    let mut i: usize = 0;
    while i < projects.len()
        invariant
            i <= projects.len(),
            lines@.len() == i,
            forall|k: int| 0 <= k < i ==> (#[trigger] lines@[k])@ == line_of(projects@[k]@),
        decreases projects.len() - i,
    {
        let project = &projects[i];
        let mut line = chars_of(project.root_path.to_text().as_str());
        line.push(',');
        let tail = match &project.main {
            Some(main) => main.to_text(),
            None => {
                proof {
                    reveal_strlit("?");
                    assert("?"@ =~= no_main());
                }
                String::from_str("?")
            },
        };
        let tail_chars = chars_of(tail.as_str());
        let ghost head = line@;
        let mut j: usize = 0;
        while j < tail_chars.len()
            invariant
                j <= tail_chars.len(),
                line@ == head + tail_chars@.take(j as int),
            decreases tail_chars.len() - j,
        {
            line.push(tail_chars[j]);
            assert(tail_chars@.take(j + 1) =~= tail_chars@.take(j as int).push(
                tail_chars@[j as int],
            ));
            j += 1;
        }
        assert(tail_chars@.take(tail_chars.len() as int) =~= tail_chars@);
        let text = string_of(&line);
        assert(text@ =~= line_of(project@));
        lines.push(text);
        i += 1;
    }
    assert(texts(lines@) =~= Seq::new(
        cache_views(projects@).len(),
        |i: int| line_of(cache_views(projects@)[i]),
    ));
    join_text(&lines, '\n')
}

} // verus!
