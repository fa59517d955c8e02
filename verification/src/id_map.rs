//! A map keyed by file identifier, kept as two parallel lists in which no
//! identifier occurs twice. Lists, not a hash map: what a hash map does with
//! a key rests on the key's `Eq` and `Hash`, and of the derived impls of an
//! identifier nothing is proved.

use crate::editor::buffer::Buffer;
use crate::identity::VirtualId;
use vstd::prelude::*;

verus! {

/// Whether some key of `keys` names `k`.
pub open spec fn has_key(keys: Seq<VirtualId>, k: Seq<Seq<char>>) -> bool {
    exists|i: int| 0 <= i < keys.len() && #[trigger] keys[i]@ == k
}

/// A place in `keys` that names `k`.
pub open spec fn place_of(keys: Seq<VirtualId>, k: Seq<Seq<char>>) -> int {
    choose|i: int| 0 <= i < keys.len() && #[trigger] keys[i]@ == k
}

/// No identifier occurs twice.
pub open spec fn distinct(keys: Seq<VirtualId>) -> bool {
    forall|i: int, j: int|
        0 <= i < keys.len() && 0 <= j < keys.len() && i != j ==> #[trigger] keys[i]@
            != #[trigger] keys[j]@
}

/// The map that two parallel lists stand for.
pub open spec fn map_of<V: View>(keys: Seq<VirtualId>, values: Seq<V>) -> Map<
    Seq<Seq<char>>,
    V::V,
> {
    Map::new(
        |k: Seq<Seq<char>>| has_key(keys, k),
        |k: Seq<Seq<char>>| values[place_of(keys, k)]@,
    )
}

/// In a list without repeats, the place of a key is the one place it is at.
pub proof fn lemma_place(keys: Seq<VirtualId>, i: int)
    requires
        distinct(keys),
        0 <= i < keys.len(),
    ensures
        has_key(keys, keys[i]@),
        place_of(keys, keys[i]@) == i,
{
    assert(keys[i]@ == keys[i]@);
}

/// A list without repeats stands for a finite map with one entry per key.
pub proof fn lemma_map_len<V: View>(keys: Seq<VirtualId>, values: Seq<V>)
    requires
        distinct(keys),
        keys.len() == values.len(),
    ensures
        map_of(keys, values).dom().finite(),
        map_of(keys, values).dom().len() == keys.len(),
    decreases keys.len(),
{
    let dom = map_of(keys, values).dom();
    if keys.len() == 0 {
        assert(dom =~= Set::<Seq<Seq<char>>>::empty());
    } else {
        let init = keys.drop_last();
        let init_values = values.drop_last();
        assert forall|i: int, j: int|
            0 <= i < init.len() && 0 <= j < init.len() && i != j implies #[trigger] init[i]@
            != #[trigger] init[j]@ by {
            assert(init[i] == keys[i]);
            assert(init[j] == keys[j]);
        }
        lemma_map_len(init, init_values);
        let before = map_of(init, init_values).dom();
        let last = keys.last()@;
        assert(!before.contains(last)) by {
            if has_key(init, last) {
                let i = place_of(init, last);
                assert(init[i] == keys[i]);
                assert(keys[i]@ == keys[keys.len() - 1]@);
            }
        }
        assert(dom =~= before.insert(last)) by {
            assert forall|k: Seq<Seq<char>>| dom.contains(k) <==> before.insert(last).contains(
                k,
            ) by {
                if has_key(keys, k) {
                    let i = place_of(keys, k);
                    if i < init.len() {
                        assert(init[i]@ == k);
                    }
                }
                if has_key(init, k) {
                    let i = place_of(init, k);
                    assert(keys[i]@ == k);
                }
                if k == last {
                    assert(keys[keys.len() - 1]@ == k);
                }
            }
        }
    }
}

/// A map from file identifiers to values.
#[derive(Clone, Debug)]
pub struct IdMap<V> {
    keys: Vec<VirtualId>,
    values: Vec<V>,
}

impl<V: View> View for IdMap<V> {
    type V = Map<Seq<Seq<char>>, V::V>;

    closed spec fn view(&self) -> Map<Seq<Seq<char>>, V::V> {
        map_of(self.keys@, self.values@)
    }
}

impl<V: View> IdMap<V> {
    /// The lists are of one length and no identifier occurs twice.
    pub closed spec fn wf(&self) -> bool {
        &&& self.keys@.len() == self.values@.len()
        &&& distinct(self.keys@)
    }

    /// The number of entries.
    pub closed spec fn spec_len(&self) -> nat {
        self.keys@.len()
    }

    /// A well-formed map has as many entries as its view has keys.
    pub proof fn lemma_len(&self)
        requires
            self.wf(),
        ensures
            self@.dom().finite(),
            self@.dom().len() == self.spec_len(),
    {
        lemma_map_len(self.keys@, self.values@);
    }

    /// An empty map.
    pub fn new() -> (map: IdMap<V>)
        ensures
            map.wf(),
            map@ == Map::<Seq<Seq<char>>, V::V>::empty(),
    {
        let map = IdMap { keys: Vec::new(), values: Vec::new() };
        assert(map@ =~= Map::<Seq<Seq<char>>, V::V>::empty());
        map
    }

    /// Whether the map has no entry.
    pub fn is_empty(&self) -> (empty: bool)
        requires
            self.wf(),
        ensures
            empty == (self@ == Map::<Seq<Seq<char>>, V::V>::empty()),
    {
        proof {
            if self.keys@.len() > 0 {
                lemma_place(self.keys@, 0);
                assert(self@.dom().contains(self.keys@[0]@));
            } else {
                assert(self@ =~= Map::<Seq<Seq<char>>, V::V>::empty());
            }
        }
        self.keys.len() == 0
    }

    /// The number of entries.
    pub fn len(&self) -> (n: usize)
        requires
            self.wf(),
        ensures
            n == self@.dom().len(),
            self@.dom().finite(),
    {
        proof {
            self.lemma_len();
        }
        self.keys.len()
    }

    fn position(&self, id: &VirtualId) -> (at: Option<usize>)
        requires
            self.wf(),
        ensures
            at matches Some(i) ==> i < self.keys@.len() && i < self.values@.len()
                && self.keys@[i as int]@ == id@,
            at is None ==> !has_key(self.keys@, id@),
            at is Some <==> self@.dom().contains(id@),
            at matches Some(i) ==> self@[id@] == self.values@[i as int]@,
    {
        let mut i: usize = 0;
        while i < self.keys.len()
            invariant
                self.wf(),
                i <= self.keys.len(),
                forall|k: int| 0 <= k < i ==> self.keys@[k]@ != id@,
            decreases self.keys.len() - i,
        {
            if self.keys[i].same(id) {
                proof {
                    lemma_place(self.keys@, i as int);
                }
                return Some(i);
            }
            i += 1;
        }
        None
    }

    /// Whether `id` has an entry.
    pub fn contains_key(&self, id: &VirtualId) -> (yes: bool)
        requires
            self.wf(),
        ensures
            yes == self@.dom().contains(id@),
    {
        self.position(id).is_some()
    }

    /// The value that `id` maps to.
    pub fn get(&self, id: &VirtualId) -> (value: Option<&V>)
        requires
            self.wf(),
        ensures
            value is Some <==> self@.dom().contains(id@),
            value matches Some(v) ==> v@ == self@[id@],
    {
        match self.position(id) {
            Some(i) => Some(&self.values[i]),
            None => None,
        }
    }

    /// Maps `id` to `value`, in place of what it mapped to before.
    pub fn insert(&mut self, id: VirtualId, value: V)
        requires
            old(self).wf(),
        ensures
            final(self).wf(),
            final(self)@ == old(self)@.insert(id@, value@),
    {
        let ghost before_keys = self.keys@;
        let ghost before_values = self.values@;
        match self.position(&id) {
            Some(i) => {
                self.values.set(i, value);
                proof {
                    assert forall|k: Seq<Seq<char>>| #[trigger]
                        map_of(self.keys@, self.values@).dom().contains(k) implies map_of(
                        self.keys@,
                        self.values@,
                    )[k] == map_of(before_keys, before_values).insert(id@, value@)[k] by {
                        if k == id@ {
                            lemma_place(self.keys@, i as int);
                        }
                    }
                    lemma_place(self.keys@, i as int);
                    assert(self@ =~= old(self)@.insert(id@, value@));
                }
            },
            None => {
                self.keys.push(id);
                self.values.push(value);
                proof {
                    let n = before_keys.len() as int;
                    assert forall|a: int, b: int|
                        0 <= a < self.keys@.len() && 0 <= b < self.keys@.len() && a
                            != b implies #[trigger] self.keys@[a]@ != #[trigger] self.keys@[b]@ by {
                        if a < n {
                            assert(self.keys@[a] == before_keys[a]);
                        }
                        if b < n {
                            assert(self.keys@[b] == before_keys[b]);
                        }
                    }
                    assert forall|k: Seq<Seq<char>>|
                        has_key(self.keys@, k) <==> (has_key(before_keys, k) || k == id@) by {
                        if has_key(self.keys@, k) {
                            let p = place_of(self.keys@, k);
                            if p < n {
                                assert(before_keys[p]@ == k);
                            }
                        }
                        if has_key(before_keys, k) {
                            let p = place_of(before_keys, k);
                            assert(self.keys@[p]@ == k);
                        }
                        if k == id@ {
                            assert(self.keys@[n]@ == k);
                        }
                    }
                    assert forall|k: Seq<Seq<char>>| has_key(self.keys@, k) implies map_of(
                        self.keys@,
                        self.values@,
                    )[k] == map_of(before_keys, before_values).insert(id@, value@)[k] by {
                        let p = place_of(self.keys@, k);
                        lemma_place(self.keys@, p);
                        if k == id@ {
                            lemma_place(self.keys@, n);
                        } else {
                            assert(p < n);
                            assert(before_keys[p]@ == k);
                            lemma_place(before_keys, p);
                        }
                    }
                    assert(self@ =~= old(self)@.insert(id@, value@));
                }
            },
        }
    }

    /// Takes the entry of `id` out and returns its value, if it had one.
    pub fn remove(&mut self, id: &VirtualId) -> (value: Option<V>)
        requires
            old(self).wf(),
        ensures
            final(self).wf(),
            final(self)@ == old(self)@.remove(id@),
            value is Some <==> old(self)@.dom().contains(id@),
            value matches Some(v) ==> v@ == old(self)@[id@],
    {
        let ghost before_keys = self.keys@;
        let ghost before_values = self.values@;
        match self.position(id) {
            Some(i) => {
                self.keys.remove(i);
                let value = self.values.remove(i);
                proof {
                    let at = i as int;
                    assert forall|a: int|
                        0 <= a < self.keys@.len() implies #[trigger] self.keys@[a] == before_keys[if a
                        < at {
                        a
                    } else {
                        a + 1
                    }] by {}
                    assert forall|a: int, b: int|
                        0 <= a < self.keys@.len() && 0 <= b < self.keys@.len() && a
                            != b implies #[trigger] self.keys@[a]@ != #[trigger] self.keys@[b]@ by {
                        let a0 = if a < at {
                            a
                        } else {
                            a + 1
                        };
                        let b0 = if b < at {
                            b
                        } else {
                            b + 1
                        };
                        assert(self.keys@[a] == before_keys[a0]);
                        assert(self.keys@[b] == before_keys[b0]);
                    }
                    assert forall|k: Seq<Seq<char>>|
                        has_key(self.keys@, k) <==> (has_key(before_keys, k) && k != id@) by {
                        if has_key(self.keys@, k) {
                            let p = place_of(self.keys@, k);
                            let was = if p < at {
                                p
                            } else {
                                p + 1
                            };
                            assert(before_keys[was]@ == k);
                        }
                        if has_key(before_keys, k) && k != id@ {
                            let was = place_of(before_keys, k);
                            let p = if was < at {
                                was
                            } else {
                                was - 1
                            };
                            assert(self.keys@[p]@ == k);
                        }
                    }
                    assert forall|k: Seq<Seq<char>>| has_key(self.keys@, k) implies map_of(
                        self.keys@,
                        self.values@,
                    )[k] == map_of(before_keys, before_values)[k] by {
                        let p = place_of(self.keys@, k);
                        let was = if p < at {
                            p
                        } else {
                            p + 1
                        };
                        assert(before_keys[was]@ == k);
                        lemma_place(before_keys, was);
                    }
                    assert(self@ =~= old(self)@.remove(id@));
                }
                Some(value)
            },
            None => {
                proof {
                    assert(self@ =~= old(self)@.remove(id@));
                }
                None
            },
        }
    }
}

/// Lists with the same identifiers in the same places, and values that look
/// alike, stand for the same map.
pub proof fn lemma_same_map<V: View>(
    keys: Seq<VirtualId>,
    values: Seq<V>,
    other_keys: Seq<VirtualId>,
    other_values: Seq<V>,
)
    requires
        distinct(keys),
        keys.len() == values.len(),
        other_keys.len() == keys.len(),
        other_values.len() == keys.len(),
        forall|i: int| 0 <= i < keys.len() ==> #[trigger] other_keys[i]@ == keys[i]@,
        forall|i: int| 0 <= i < keys.len() ==> #[trigger] other_values[i]@ == values[i]@,
    ensures
        distinct(other_keys),
        map_of(other_keys, other_values) == map_of(keys, values),
{
    assert forall|a: int, b: int|
        0 <= a < other_keys.len() && 0 <= b < other_keys.len() && a
            != b implies #[trigger] other_keys[a]@ != #[trigger] other_keys[b]@ by {
        assert(other_keys[a]@ == keys[a]@);
        assert(other_keys[b]@ == keys[b]@);
    }
    assert forall|k: Seq<Seq<char>>| has_key(keys, k) <==> has_key(other_keys, k) by {
        if has_key(keys, k) {
            let p = place_of(keys, k);
            assert(other_keys[p]@ == k);
        }
        if has_key(other_keys, k) {
            let p = place_of(other_keys, k);
            assert(keys[p]@ == k);
        }
    }
    assert forall|k: Seq<Seq<char>>| has_key(keys, k) implies map_of(other_keys, other_values)[k]
        == map_of(keys, values)[k] by {
        let p = place_of(keys, k);
        lemma_place(keys, p);
        assert(other_keys[p]@ == k);
        lemma_place(other_keys, p);
    }
    assert(map_of(other_keys, other_values) =~= map_of(keys, values));
}

fn copy_keys(keys: &Vec<VirtualId>) -> (out: Vec<VirtualId>)
    ensures
        out@.len() == keys@.len(),
        forall|i: int| 0 <= i < keys@.len() ==> #[trigger] out@[i]@ == keys@[i]@,
{
    let mut out: Vec<VirtualId> = Vec::new();
    let mut i: usize = 0;
    while i < keys.len()
        invariant
            i <= keys.len(),
            out@.len() == i,
            forall|k: int| 0 <= k < i ==> #[trigger] out@[k]@ == keys@[k]@,
        decreases keys.len() - i,
    {
        out.push(keys[i].copy());
        i += 1;
    }
    out
}

impl IdMap<Buffer> {
    /// Whether every buffer of the map is saved.
    pub fn all_saved(&self) -> (saved: bool)
        requires
            self.wf(),
        ensures
            saved == forall|k: Seq<Seq<char>>|
                self@.dom().contains(k) ==> (#[trigger] self@[k]).is_saved,
    {
        let mut i: usize = 0;
        while i < self.values.len()
            invariant
                self.wf(),
                i <= self.values.len(),
                forall|j: int| 0 <= j < i ==> (#[trigger] self.values@[j]).is_saved,
            decreases self.values.len() - i,
        {
            if !self.values[i].is_saved {
                proof {
                    lemma_place(self.keys@, i as int);
                    let k = self.keys@[i as int]@;
                    assert(self@.dom().contains(k));
                    assert(self@[k] == self.values@[i as int]@);
                    assert(!self@[k].is_saved);
                }
                return false;
            }
            i += 1;
        }
        proof {
            assert forall|k: Seq<Seq<char>>| self@.dom().contains(k) implies (
            #[trigger] self@[k]).is_saved by {
                let at = place_of(self.keys@, k);
                assert(self@[k] == self.values@[at]@);
            }
        }
        true
    }
}

impl IdMap<String> {
    /// An independent copy of the map.
    pub fn copy(&self) -> (map: IdMap<String>)
        requires
            self.wf(),
        ensures
            map.wf(),
            map@ == self@,
    {
        let keys = copy_keys(&self.keys);
        let mut values: Vec<String> = Vec::new();
        let mut i: usize = 0;
        while i < self.values.len()
            invariant
                i <= self.values.len(),
                values@.len() == i,
                forall|k: int| 0 <= k < i ==> #[trigger] values@[k]@ == self.values@[k]@,
            decreases self.values.len() - i,
        {
            values.push(self.values[i].clone());
            i += 1;
        }
        proof {
            lemma_same_map(self.keys@, self.values@, keys@, values@);
        }
        IdMap { keys, values }
    }
}

impl IdMap<Vec<u8>> {
    /// An independent copy of the map.
    pub fn copy(&self) -> (map: IdMap<Vec<u8>>)
        requires
            self.wf(),
        ensures
            map.wf(),
            map@ == self@,
    {
        let keys = copy_keys(&self.keys);
        let mut values: Vec<Vec<u8>> = Vec::new();
        let mut i: usize = 0;
        while i < self.values.len()
            invariant
                i <= self.values.len(),
                values@.len() == i,
                forall|k: int| 0 <= k < i ==> #[trigger] values@[k]@ == self.values@[k]@,
            decreases self.values.len() - i,
        {
            let bytes = &self.values[i];
            let mut copy: Vec<u8> = Vec::new();
            let mut j: usize = 0;
            while j < bytes.len()
                invariant
                    j <= bytes.len(),
                    copy@ == bytes@.take(j as int),
                decreases bytes.len() - j,
            {
                copy.push(bytes[j]);
                assert(bytes@.take(j + 1) =~= bytes@.take(j as int).push(bytes@[j as int]));
                j += 1;
            }
            assert(bytes@.take(bytes.len() as int) =~= bytes@);
            values.push(copy);
            i += 1;
        }
        proof {
            lemma_same_map(self.keys@, self.values@, keys@, values@);
        }
        IdMap { keys, values }
    }
}

} // verus!
