//! File-system paths as the library sees them: whether the path starts at the
//! root, and the names that follow, in order. Empty names and `.` never occur
//! in a parsed path; `..` is kept as a name of its own.

use crate::text::{chars_of, join_text, joined, split, split_text, string_of, texts};
use vstd::prelude::*;

verus! {

/// What a path is: rooted or not, and its names.
pub struct PathView {
    pub absolute: bool,
    pub parts: Seq<Seq<char>>,
}

/// A field between two separators counts as a name unless it is empty or `.`.
pub open spec fn is_name(field: Seq<char>) -> bool {
    field.len() > 0 && field != seq!['.']
}

/// The names among `fields`, in order.
pub open spec fn names(fields: Seq<Seq<char>>) -> Seq<Seq<char>>
    decreases fields.len(),
{
    if fields.len() == 0 {
        fields
    } else if is_name(fields.last()) {
        names(fields.drop_last()).push(fields.last())
    } else {
        names(fields.drop_last())
    }
}

/// The path that a text spells.
pub open spec fn path_of(s: Seq<char>) -> PathView {
    PathView { absolute: s.len() > 0 && s[0] == '/', parts: names(split(s, '/')) }
}

/// The text that spells a path.
pub open spec fn text_of(p: PathView) -> Seq<char> {
    if p.absolute {
        seq!['/'] + joined(p.parts, '/')
    } else {
        joined(p.parts, '/')
    }
}

/// Whether `path` lies under `base`: the names of `base` start those of
/// `path`, and both are rooted alike. An empty relative base lies over
/// every path.
pub open spec fn under(base: PathView, path: PathView) -> bool {
    &&& base.parts.is_prefix_of(path.parts)
    &&& (base.absolute == path.absolute || (!base.absolute && base.parts.len() == 0))
}

/// What is left of `path` once `base` is taken from its front.
pub open spec fn rest_of(base: PathView, path: PathView) -> PathView {
    PathView {
        absolute: path.absolute && !base.absolute,
        parts: path.parts.skip(base.parts.len() as int),
    }
}

/// `other` appended to `base`; a rooted `other` replaces `base`.
pub open spec fn join_of(base: PathView, other: PathView) -> PathView {
    if other.absolute {
        other
    } else {
        PathView { absolute: base.absolute, parts: base.parts + other.parts }
    }
}

/// The last name of a path, unless there is none or it is `..`.
pub open spec fn file_name_of(p: PathView) -> Option<Seq<char>> {
    if p.parts.len() == 0 || p.parts.last() == seq!['.', '.'] {
        None
    } else {
        Some(p.parts.last())
    }
}

/// The place of the last `.` in `name`, or -1.
pub open spec fn last_dot(name: Seq<char>) -> int
    decreases name.len(),
{
    if name.len() == 0 {
        -1
    } else if name.last() == '.' {
        name.len() - 1
    } else {
        last_dot(name.drop_last())
    }
}

/// What follows the last `.` of a file name; none where the name has no `.`
/// or only starts with one.
pub open spec fn extension_of(name: Seq<char>) -> Option<Seq<char>> {
    if last_dot(name) <= 0 {
        None
    } else {
        Some(name.skip(last_dot(name) + 1))
    }
}

/// Names that a text can spell: none is empty, none is `.`, none holds a
/// `/`.
pub open spec fn well_named(parts: Seq<Seq<char>>) -> bool {
    forall|i: int|
        0 <= i < parts.len() ==> is_name(#[trigger] parts[i]) && forall|j: int|
            0 <= j < parts[i].len() ==> parts[i][j] != '/'
}

/// Among names every field is kept.
pub proof fn lemma_names_kept(fields: Seq<Seq<char>>)
    requires
        forall|i: int| 0 <= i < fields.len() ==> is_name(#[trigger] fields[i]),
    ensures
        names(fields) == fields,
    decreases fields.len(),
{
    if fields.len() > 0 {
        let init = fields.drop_last();
        assert forall|i: int| 0 <= i < init.len() implies is_name(#[trigger] init[i]) by {
            assert(init[i] == fields[i]);
        }
        lemma_names_kept(init);
        assert(is_name(fields[fields.len() - 1]));
        assert(init.push(fields.last()) =~= fields);
    }
}

/// An empty field in front is no name.
pub proof fn lemma_names_after_empty(fields: Seq<Seq<char>>)
    ensures
        names(seq![Seq::<char>::empty()] + fields) == names(fields),
    decreases fields.len(),
{
    let empty = Seq::<char>::empty();
    let whole = seq![empty] + fields;
    if fields.len() == 0 {
        assert(whole =~= seq![empty]);
        assert(whole.drop_last() =~= Seq::<Seq<char>>::empty());
        assert(names(whole.drop_last()) =~= Seq::<Seq<char>>::empty());
        assert(names(fields) =~= Seq::<Seq<char>>::empty());
    } else {
        lemma_names_after_empty(fields.drop_last());
        assert(whole.drop_last() =~= seq![empty] + fields.drop_last());
        assert(whole.last() == fields.last());
    }
}

/// The text that spells a path spells that path: reading what was written
/// gives the path back.
pub proof fn lemma_text_round_trip(p: PathView)
    requires
        well_named(p.parts),
    ensures
        path_of(text_of(p)) == p,
{
    let empty = Seq::<char>::empty();
    let body = joined(p.parts, '/');
    if p.parts.len() == 0 {
        assert(body =~= empty);
        assert(split(empty, '/') =~= seq![empty]);
        let single = seq![empty];
        assert(single.drop_last() =~= Seq::<Seq<char>>::empty());
        assert(single.last() == empty);
        assert(names(single.drop_last()) == single.drop_last());
        assert(names(single) =~= p.parts);
        if p.absolute {
            assert(text_of(p) =~= seq!['/'] + empty);
            crate::text::lemma_split_prepend(empty, '/');
            lemma_names_after_empty(seq![empty]);
        }
    } else {
        assert forall|i: int, j: int|
            0 <= i < p.parts.len() && 0 <= j < p.parts[i].len() implies p.parts[i][j]
            != '/' by {
            assert(is_name(p.parts[i]));
        }
        crate::text::lemma_split_joined(p.parts, '/');
        assert forall|i: int| 0 <= i < p.parts.len() implies is_name(#[trigger] p.parts[i]) by {}
        lemma_names_kept(p.parts);
        if p.absolute {
            crate::text::lemma_split_prepend(body, '/');
            lemma_names_after_empty(p.parts);
        } else {
            crate::text::lemma_joined_begins(p.parts, '/');
            assert(is_name(p.parts[0]));
            assert(body[0] == p.parts[0][0]) by {
                assert(p.parts[0] =~= body.subrange(0, p.parts[0].len() as int));
                assert(body.subrange(0, p.parts[0].len() as int)[0] == body[0]);
            }
        }
    }
}

/// A file name without its extension: what stands before the last `.`, or
/// the whole name where it has no `.` or only starts with one.
pub open spec fn stem_of(name: Seq<char>) -> Seq<char> {
    if last_dot(name) <= 0 {
        name
    } else {
        name.take(last_dot(name))
    }
}

/// The path with the extension of its file name replaced; an empty
/// extension takes the old one away. A path without a file name stays.
pub open spec fn with_extension_of(p: PathView, ext: Seq<char>) -> PathView {
    match file_name_of(p) {
        None => p,
        Some(name) => PathView {
            absolute: p.absolute,
            parts: p.parts.drop_last().push(
                if ext.len() == 0 {
                    stem_of(name)
                } else {
                    stem_of(name) + seq!['.'] + ext
                },
            ),
        },
    }
}

/// A path: rooted or relative, with its names in order.
#[derive(Clone, Debug, PartialEq, Eq, PartialOrd, Ord, Hash)]
pub struct FsPath {
    absolute: bool,
    parts: Vec<String>,
}

impl View for FsPath {
    type V = PathView;

    closed spec fn view(&self) -> PathView {
        PathView { absolute: self.absolute, parts: texts(self.parts@) }
    }
}

/// A copy of each string, in order.
pub fn copy_strings(items: &Vec<String>) -> (out: Vec<String>)
    ensures
        texts(out@) == texts(items@),
        out@.len() == items@.len(),
{
    let mut out: Vec<String> = Vec::new();
    let mut i: usize = 0;
    while i < items.len()
        invariant
            i <= items.len(),
            out@.len() == i,
            forall|k: int| 0 <= k < i ==> out@[k]@ == items@[k]@,
        decreases items.len() - i,
    {
        out.push(items[i].clone());
        i += 1;
    }
    assert(texts(out@) =~= texts(items@));
    out
}

/// Whether two lists of strings hold the same texts in the same order.
pub fn same_strings(a: &Vec<String>, b: &Vec<String>) -> (same: bool)
    ensures
        same == (texts(a@) == texts(b@)),
{
    if a.len() != b.len() {
        assert(texts(a@).len() != texts(b@).len());
        return false;
    }
    let mut i: usize = 0;
    while i < a.len()
        invariant
            i <= a.len(),
            a.len() == b.len(),
            forall|k: int| 0 <= k < i ==> a@[k]@ == b@[k]@,
        decreases a.len() - i,
    {
        if a[i] != b[i] {
            assert(texts(a@)[i as int] != texts(b@)[i as int]);
            return false;
        }
        i += 1;
    }
    assert(texts(a@) =~= texts(b@));
    true
}

/// Whether `text` is `.`, for `n` one, or `..`, for `n` two.
fn is_dots(text: &str, n: usize) -> (yes: bool)
    requires
        n == 1 || n == 2,
    ensures
        yes == (text@ == if n == 1 {
            seq!['.']
        } else {
            seq!['.', '.']
        }),
{
    let chars = chars_of(text);
    if chars.len() != n {
        return false;
    }
    if chars[0] != '.' {
        return false;
    }
    if n == 2 && chars[1] != '.' {
        return false;
    }
    if n == 1 {
        assert(chars@ =~= seq!['.']);
    } else {
        assert(chars@ =~= seq!['.', '.']);
    }
    true
}

impl FsPath {
    /// Reads a path from its text: `/` separates names, a leading `/` roots
    /// the path, and empty fields and `.` are passed over.
    pub fn parse(text: &str) -> (path: FsPath)
        ensures
            path@ == path_of(text@),
    {
        let chars = chars_of(text);
        let absolute = chars.len() > 0 && chars[0] == '/';
        let fields = split_text(text, '/');
        let mut parts: Vec<String> = Vec::new();
        let mut i: usize = 0;
        assert(texts(fields@).take(0) =~= Seq::<Seq<char>>::empty());
        while i < fields.len()
            invariant
                i <= fields.len(),
                texts(parts@) == names(texts(fields@).take(i as int)),
            decreases fields.len() - i,
        {
            proof {
                let upto = texts(fields@).take(i + 1);
                assert(upto.drop_last() =~= texts(fields@).take(i as int));
                assert(upto.last() == fields@[i as int]@);
            }
            let field = &fields[i];
            let empty = field.as_str().unicode_len() == 0;
            if !empty && !is_dots(field.as_str(), 1) {
                let ghost before = parts@;
                parts.push(field.clone());
                assert(texts(parts@) =~= texts(before).push(field@));
            }
            i += 1;
        }
        assert(texts(fields@).take(fields.len() as int) =~= texts(fields@));
        FsPath { absolute, parts }
    }

    /// Builds a path from its names, refusing a name that is empty, is `.`
    /// or holds a `/`.
    pub fn from_parts(absolute: bool, parts: Vec<String>) -> (path: Option<FsPath>)
        ensures
            path is Some <==> forall|i: int|
                0 <= i < parts@.len() ==> is_name(#[trigger] parts@[i]@) && !parts@[i]@.contains(
                    '/',
                ),
            path matches Some(p) ==> p@ == (PathView { absolute, parts: texts(parts@) }),
    {
        let mut i: usize = 0;
        while i < parts.len()
            invariant
                i <= parts.len(),
                forall|k: int|
                    0 <= k < i ==> is_name(#[trigger] parts@[k]@) && !parts@[k]@.contains('/'),
            decreases parts.len() - i,
        {
            let chars = chars_of(parts[i].as_str());
            if chars.len() == 0 || is_dots(parts[i].as_str(), 1) {
                return None;
            }
            let mut j: usize = 0;
            while j < chars.len()
                invariant
                    j <= chars.len(),
                    i < parts.len(),
                    chars@ == parts@[i as int]@,
                    forall|k: int| 0 <= k < j ==> chars@[k] != '/',
                decreases chars.len() - j,
            {
                if chars[j] == '/' {
                    assert(chars@[j as int] == '/');
                    assert(parts@[i as int]@.contains('/'));
                    return None;
                }
                j += 1;
            }
            i += 1;
        }
        Some(FsPath { absolute, parts })
    }

    /// A path of the given names, taken as they are.
    pub(crate) fn assemble(absolute: bool, parts: Vec<String>) -> (path: FsPath)
        ensures
            path@ == (PathView { absolute, parts: texts(parts@) }),
    {
        FsPath { absolute, parts }
    }

    /// Whether the path starts at the root.
    pub fn is_absolute(&self) -> (yes: bool)
        ensures
            yes == self@.absolute,
    {
        self.absolute
    }

    /// The names of the path, in order.
    pub fn parts(&self) -> (parts: &Vec<String>)
        ensures
            texts(parts@) == self@.parts,
    {
        &self.parts
    }

    /// Spells the path: names joined by `/`, after a leading `/` where the
    /// path is rooted.
    pub fn to_text(&self) -> (text: String)
        ensures
            text@ == text_of(self@),
    {
        let body = join_text(&self.parts, '/');
        if self.absolute {
            let mut out: Vec<char> = Vec::new();
            out.push('/');
            let chars = chars_of(body.as_str());
            let mut i: usize = 0;
            while i < chars.len()
                invariant
                    i <= chars.len(),
                    out@ == seq!['/'] + chars@.take(i as int),
                decreases chars.len() - i,
            {
                out.push(chars[i]);
                assert(chars@.take(i + 1) =~= chars@.take(i as int).push(chars@[i as int]));
                i += 1;
            }
            assert(chars@.take(chars.len() as int) =~= chars@);
            string_of(&out)
        } else {
            body
        }
    }

    /// A copy of the path.
    pub fn copy(&self) -> (path: FsPath)
        ensures
            path@ == self@,
    {
        FsPath { absolute: self.absolute, parts: copy_strings(&self.parts) }
    }

    /// Whether both paths are rooted alike and hold the same names.
    pub fn same(&self, other: &FsPath) -> (same: bool)
        ensures
            same == (self@ == other@),
    {
        self.absolute == other.absolute && same_strings(&self.parts, &other.parts)
    }

    /// `other` appended to this path; a rooted `other` stands for itself.
    pub fn join(&self, other: &FsPath) -> (path: FsPath)
        ensures
            path@ == join_of(self@, other@),
    {
        if other.absolute {
            return other.copy();
        }
        let mut parts = copy_strings(&self.parts);
        let mut i: usize = 0;
        while i < other.parts.len()
            invariant
                i <= other.parts.len(),
                texts(parts@) == texts(self.parts@) + texts(other.parts@).take(i as int),
            decreases other.parts.len() - i,
        {
            let ghost before = parts@;
            parts.push(other.parts[i].clone());
            proof {
                assert(texts(parts@) =~= texts(before).push(other.parts@[i as int]@));
                assert(texts(other.parts@).take(i + 1) =~= texts(other.parts@).take(
                    i as int,
                ).push(other.parts@[i as int]@));
            }
            i += 1;
        }
        assert(texts(other.parts@).take(other.parts.len() as int) =~= texts(other.parts@));
        FsPath { absolute: self.absolute, parts }
    }

    /// The path that `name` spells, appended to this one.
    pub fn join_name(&self, name: &str) -> (path: FsPath)
        ensures
            path@ == join_of(self@, path_of(name@)),
    {
        let tail = FsPath::parse(name);
        self.join(&tail)
    }

    /// Whether this path lies under `base`.
    pub fn starts_with(&self, base: &FsPath) -> (yes: bool)
        ensures
            yes == under(base@, self@),
    {
        if base.absolute != self.absolute && (base.absolute || base.parts.len() > 0) {
            return false;
        }
        if base.parts.len() > self.parts.len() {
            return false;
        }
        let mut i: usize = 0;
        while i < base.parts.len()
            invariant
                i <= base.parts.len(),
                base.parts.len() <= self.parts.len(),
                forall|k: int| 0 <= k < i ==> base.parts@[k]@ == self.parts@[k]@,
            decreases base.parts.len() - i,
        {
            if base.parts[i] != self.parts[i] {
                assert(texts(base.parts@)[i as int] != texts(self.parts@)[i as int]);
                return false;
            }
            i += 1;
        }
        assert(texts(base.parts@) =~= texts(self.parts@).subrange(
            0,
            texts(base.parts@).len() as int,
        ));
        true
    }

    /// What is left of this path once `base` is taken from its front, if the
    /// path lies under `base`.
    pub fn strip_prefix(&self, base: &FsPath) -> (rest: Option<FsPath>)
        ensures
            rest is Some <==> under(base@, self@),
            rest matches Some(r) ==> r@ == rest_of(base@, self@),
    {
        if !self.starts_with(base) {
            return None;
        }
        let mut parts: Vec<String> = Vec::new();
        let start = base.parts.len();
        let mut i: usize = start;
        while i < self.parts.len()
            invariant
                start <= i <= self.parts.len(),
                texts(parts@) == texts(self.parts@).subrange(start as int, i as int),
            decreases self.parts.len() - i,
        {
            let ghost before = parts@;
            parts.push(self.parts[i].clone());
            proof {
                assert(texts(parts@) =~= texts(before).push(self.parts@[i as int]@));
                assert(texts(self.parts@).subrange(start as int, i + 1) =~= texts(
                    self.parts@,
                ).subrange(start as int, i as int).push(self.parts@[i as int]@));
            }
            i += 1;
        }
        Some(FsPath { absolute: self.absolute && !base.absolute, parts })
    }

    /// The last name of the path, unless there is none or it is `..`.
    pub fn file_name(&self) -> (name: Option<String>)
        ensures
            name is Some <==> file_name_of(self@) is Some,
            name matches Some(n) ==> Some(n@) == file_name_of(self@),
    {
        if self.parts.len() == 0 {
            return None;
        }
        let last = &self.parts[self.parts.len() - 1];
        assert(last@ == texts(self.parts@).last());
        if is_dots(last.as_str(), 2) {
            None
        } else {
            Some(last.clone())
        }
    }

    /// The path with the extension of its file name replaced by `ext`.
    pub fn with_extension(&self, ext: &str) -> (path: FsPath)
        ensures
            path@ == with_extension_of(self@, ext@),
    {
        let name = match self.file_name() {
            Some(name) => name,
            None => {
                return self.copy();
            },
        };
        let chars = chars_of(name.as_str());
        let mut dot: usize = 0;
        let mut found = false;
        let mut i: usize = 0;
        assert(chars@.take(0) =~= Seq::<char>::empty());
        while i < chars.len()
            invariant
                i <= chars.len(),
                found ==> dot < i && last_dot(chars@.take(i as int)) == dot,
                !found ==> last_dot(chars@.take(i as int)) == -1,
            decreases chars.len() - i,
        {
            proof {
                let upto = chars@.take(i + 1);
                assert(upto.drop_last() =~= chars@.take(i as int));
            }
            if chars[i] == '.' {
                dot = i;
                found = true;
            }
            i += 1;
        }
        assert(chars@.take(chars.len() as int) =~= chars@);
        let keep = if found && dot > 0 {
            dot
        } else {
            chars.len()
        };
        let mut out: Vec<char> = Vec::new();
        let mut j: usize = 0;
        while j < keep
            invariant
                j <= keep <= chars.len(),
                out@ == chars@.take(j as int),
            decreases keep - j,
        {
            out.push(chars[j]);
            assert(chars@.take(j + 1) =~= chars@.take(j as int).push(chars@[j as int]));
            j += 1;
        }
        assert(out@ == stem_of(name@));
        let suffix = chars_of(ext);
        if suffix.len() > 0 {
            out.push('.');
            let ghost head = out@;
            let mut k: usize = 0;
            while k < suffix.len()
                invariant
                    k <= suffix.len(),
                    out@ == head + suffix@.take(k as int),
                decreases suffix.len() - k,
            {
                out.push(suffix[k]);
                assert(suffix@.take(k + 1) =~= suffix@.take(k as int).push(suffix@[k as int]));
                k += 1;
            }
            assert(suffix@.take(suffix.len() as int) =~= suffix@);
            assert(out@ =~= stem_of(name@) + seq!['.'] + ext@);
        }
        let mut parts = copy_strings(&self.parts);
        parts.pop();
        let renamed = string_of(&out);
        parts.push(renamed);
        assert(texts(parts@) =~= texts(self.parts@).drop_last().push(renamed@));
        FsPath { absolute: self.absolute, parts }
    }

    /// What follows the last `.` of the file name.
    pub fn extension(&self) -> (ext: Option<String>)
        ensures
            ext is Some <==> (file_name_of(self@) matches Some(n) && extension_of(n) is Some),
            ext matches Some(e) ==> Some(e@) == extension_of(file_name_of(self@).unwrap()),
    {
        match self.file_name() {
            None => None,
            Some(name) => extension_in(name.as_str()),
        }
    }
}

/// What follows the last `.` of `name`; none where the name has no `.` or
/// only starts with one.
pub fn extension_in(name: &str) -> (ext: Option<String>)
    ensures
        ext is Some <==> extension_of(name@) is Some,
        ext matches Some(e) ==> Some(e@) == extension_of(name@),
{
    let chars = chars_of(name);
    let mut dot: usize = 0;
    let mut found = false;
    let mut i: usize = 0;
    assert(chars@.take(0) =~= Seq::<char>::empty());
    while i < chars.len()
        invariant
            i <= chars.len(),
            found ==> dot < i && last_dot(chars@.take(i as int)) == dot,
            !found ==> last_dot(chars@.take(i as int)) == -1,
        decreases chars.len() - i,
    {
        proof {
            let upto = chars@.take(i + 1);
            assert(upto.drop_last() =~= chars@.take(i as int));
        }
        if chars[i] == '.' {
            dot = i;
            found = true;
        }
        i += 1;
    }
    assert(chars@.take(chars.len() as int) =~= chars@);
    if !found || dot == 0 {
        return None;
    }
    let mut out: Vec<char> = Vec::new();
    let mut j: usize = dot + 1;
    while j < chars.len()
        invariant
            dot + 1 <= j <= chars.len(),
            out@ == chars@.subrange(dot + 1, j as int),
        decreases chars.len() - j,
    {
        out.push(chars[j]);
        assert(chars@.subrange(dot + 1, j + 1) =~= chars@.subrange(dot + 1, j as int).push(
            chars@[j as int],
        ));
        j += 1;
    }
    assert(chars@.subrange(dot + 1, chars.len() as int) =~= chars@.skip(dot + 1));
    Some(string_of(&out))
}

} // verus!
