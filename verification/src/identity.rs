//! Identifiers of project files: the path of a file below the project root,
//! with `.` dropped and `name/..` cancelled. The mapping between absolute
//! paths and identifiers is a pure function of the root.

use crate::path::{is_name, join_of, rest_of, under, FsPath, PathView};
use crate::text::{chars_of, texts};
use vstd::prelude::*;

verus! {

/// The name that stands for the parent directory.
pub open spec fn parent_name() -> Seq<char> {
    seq!['.', '.']
}

/// The names of a path with every `.` and empty name dropped and every
/// `..` that follows a real name cancelled against it. A `..` with nothing
/// before it to cancel is kept.
pub open spec fn normalized(parts: Seq<Seq<char>>) -> Seq<Seq<char>>
    decreases parts.len(),
{
    if parts.len() == 0 {
        parts
    } else {
        let before = normalized(parts.drop_last());
        let last = parts.last();
        if !is_name(last) {
            before
        } else if last == parent_name() && before.len() > 0 && before.last() != parent_name() {
            before.drop_last()
        } else {
            before.push(last)
        }
    }
}

/// Names that normalising leaves as they are: real names only, and `..`
/// only in front of them.
pub open spec fn is_plain(parts: Seq<Seq<char>>) -> bool {
    forall|i: int|
        0 <= i < parts.len() ==> is_name(#[trigger] parts[i]) && (parts[i] == parent_name() ==> i
            == 0 || parts[i - 1] == parent_name())
}

/// The identifier of `path` within `root`, if `path` lies under `root`.
pub open spec fn to_virtual(root: PathView, path: PathView) -> Option<Seq<Seq<char>>> {
    if under(root, path) {
        Some(normalized(rest_of(root, path).parts))
    } else {
        None
    }
}

/// The path on disk of the file that `id` names within `root`.
pub open spec fn to_absolute(root: PathView, id: Seq<Seq<char>>) -> PathView {
    join_of(root, PathView { absolute: false, parts: id })
}

/// Normalising plain names changes nothing.
pub proof fn lemma_plain_is_normal(parts: Seq<Seq<char>>)
    requires
        is_plain(parts),
    ensures
        normalized(parts) == parts,
    decreases parts.len(),
{
    if parts.len() > 0 {
        let init = parts.drop_last();
        assert forall|i: int| 0 <= i < init.len() implies is_name(#[trigger] init[i]) && (init[i]
            == parent_name() ==> i == 0 || init[i - 1] == parent_name()) by {
            assert(init[i] == parts[i]);
            if i > 0 {
                assert(init[i - 1] == parts[i - 1]);
            }
        }
        lemma_plain_is_normal(init);
        let last = parts.last();
        assert(is_name(parts[parts.len() - 1]));
        if last == parent_name() && init.len() > 0 {
            assert(parts[parts.len() - 2] == parent_name());
            assert(init.last() == parts[parts.len() - 2]);
        }
        assert(init.push(last) =~= parts);
    }
}

/// Normalising twice is normalising once, and what comes out is plain.
pub proof fn lemma_normalized_is_plain(parts: Seq<Seq<char>>)
    ensures
        is_plain(normalized(parts)),
        normalized(normalized(parts)) == normalized(parts),
    decreases parts.len(),
{
    if parts.len() > 0 {
        lemma_normalized_is_plain(parts.drop_last());
        let before = normalized(parts.drop_last());
        let last = parts.last();
        let out = normalized(parts);
        if !is_name(last) {
        } else if last == parent_name() && before.len() > 0 && before.last() != parent_name() {
            assert forall|i: int| 0 <= i < out.len() implies is_name(#[trigger] out[i]) && (out[i]
                == parent_name() ==> i == 0 || out[i - 1] == parent_name()) by {
                assert(out[i] == before[i]);
                if i > 0 {
                    assert(out[i - 1] == before[i - 1]);
                }
            }
        } else {
            assert forall|i: int| 0 <= i < out.len() implies is_name(#[trigger] out[i]) && (out[i]
                == parent_name() ==> i == 0 || out[i - 1] == parent_name()) by {
                if i < before.len() {
                    assert(out[i] == before[i]);
                    if i > 0 {
                        assert(out[i - 1] == before[i - 1]);
                    }
                } else if i > 0 {
                    assert(out[i - 1] == before.last());
                }
            }
        }
    }
    lemma_plain_is_normal(normalized(parts));
}

/// The round trip of identity: a path under the root, rooted as the root is
/// and plain below it, is found again from its identifier.
pub proof fn lemma_identity_round_trip(root: PathView, path: PathView)
    requires
        under(root, path),
        root.absolute == path.absolute,
        is_plain(rest_of(root, path).parts),
    ensures
        to_virtual(root, path) is Some,
        to_absolute(root, to_virtual(root, path).unwrap()) == path,
{
    let rest = rest_of(root, path).parts;
    lemma_plain_is_normal(rest);
    assert(root.parts + rest =~= path.parts);
}

/// The identifier of a file within a project: its plain path below the root.
#[derive(Clone, Debug, PartialEq, Eq, PartialOrd, Ord, Hash)]
pub struct VirtualId {
    parts: Vec<String>,
}

impl View for VirtualId {
    type V = Seq<Seq<char>>;

    closed spec fn view(&self) -> Seq<Seq<char>> {
        texts(self.parts@)
    }
}

impl VirtualId {
    /// The identifier of the file at `path`, read from the project root
    /// whether or not `path` is written as rooted.
    pub fn new(path: &FsPath) -> (id: VirtualId)
        ensures
            id@ == normalized(path@.parts),
    {
        let names = path.parts();
        let mut parts: Vec<String> = Vec::new();
        let mut i: usize = 0;
        assert(texts(names@).take(0) =~= Seq::<Seq<char>>::empty());
        while i < names.len()
            invariant
                i <= names.len(),
                texts(parts@) == normalized(texts(names@).take(i as int)),
            decreases names.len() - i,
        {
            proof {
                let upto = texts(names@).take(i + 1);
                assert(upto.drop_last() =~= texts(names@).take(i as int));
                assert(upto.last() == names@[i as int]@);
            }
            let name = &names[i];
            let chars = chars_of(name.as_str());
            let is_dot = chars.len() == 1 && chars[0] == '.';
            let is_parent = chars.len() == 2 && chars[0] == '.' && chars[1] == '.';
            proof {
                if is_dot {
                    assert(chars@ =~= seq!['.']);
                }
                if is_parent {
                    assert(chars@ =~= parent_name());
                }
            }
            if chars.len() == 0 || is_dot {
            } else if is_parent && parts.len() > 0 && !Self::is_parent(&parts[parts.len() - 1]) {
                let ghost before = parts@;
                assert(texts(before).last() == before.last()@);
                parts.pop();
                assert(texts(parts@) =~= texts(before).drop_last());
            } else {
                let ghost before = parts@;
                if parts.len() > 0 {
                    assert(texts(before).last() == before.last()@);
                }
                parts.push(name.clone());
                assert(texts(parts@) =~= texts(before).push(name@));
            }
            i += 1;
        }
        assert(texts(names@).take(names.len() as int) =~= texts(names@));
        VirtualId { parts }
    }

    fn is_parent(name: &String) -> (yes: bool)
        ensures
            yes == (name@ == parent_name()),
    {
        let chars = chars_of(name.as_str());
        let yes = chars.len() == 2 && chars[0] == '.' && chars[1] == '.';
        proof {
            if yes {
                assert(chars@ =~= parent_name());
            }
        }
        yes
    }

    /// The identifier's path, relative to the project root.
    pub fn as_rootless_path(&self) -> (path: FsPath)
        ensures
            path@ == (PathView { absolute: false, parts: self@ }),
    {
        FsPath::assemble(false, crate::path::copy_strings(&self.parts))
    }

    /// A copy of the identifier.
    pub fn copy(&self) -> (id: VirtualId)
        ensures
            id@ == self@,
    {
        VirtualId { parts: crate::path::copy_strings(&self.parts) }
    }

    /// Whether both identifiers name the same file.
    pub fn same(&self, other: &VirtualId) -> (same: bool)
        ensures
            same == (self@ == other@),
    {
        crate::path::same_strings(&self.parts, &other.parts)
    }
}

} // verus!
