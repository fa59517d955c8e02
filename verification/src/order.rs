//! The alphabetical order of names, with or without regard to the case of
//! the letters A to Z, and sorting by it.

use crate::text::{chars_of, texts};
use vstd::prelude::*;

verus! {

/// The rank of a character: its code, with the capital letters A to Z taken
/// as their small letters where `fold` is set.
pub open spec fn rank(c: char, fold: bool) -> int {
    if fold && 65 <= c as u32 <= 90 {
        c as u32 + 32
    } else {
        c as u32 as int
    }
}

/// Whether `a` comes before `b` or is equal to it: at the first place where
/// they differ `a` has the lower rank, or `a` ends first.
pub open spec fn text_le(a: Seq<char>, b: Seq<char>, fold: bool) -> bool
    decreases a.len(),
{
    if a.len() == 0 {
        true
    } else if b.len() == 0 {
        false
    } else if rank(a[0], fold) != rank(b[0], fold) {
        rank(a[0], fold) < rank(b[0], fold)
    } else {
        text_le(a.skip(1), b.skip(1), fold)
    }
}

/// Every name comes before itself or is equal to it.
pub proof fn lemma_le_reflexive(a: Seq<char>, fold: bool)
    ensures
        text_le(a, a, fold),
    decreases a.len(),
{
    if a.len() > 0 {
        lemma_le_reflexive(a.skip(1), fold);
    }
}

/// Of two names one comes before the other or is equal to it.
pub proof fn lemma_le_total(a: Seq<char>, b: Seq<char>, fold: bool)
    ensures
        text_le(a, b, fold) || text_le(b, a, fold),
    decreases a.len(),
{
    if a.len() > 0 && b.len() > 0 && rank(a[0], fold) == rank(b[0], fold) {
        lemma_le_total(a.skip(1), b.skip(1), fold);
    }
}

/// What comes before a name that comes before a third comes before the
/// third.
pub proof fn lemma_le_transitive(a: Seq<char>, b: Seq<char>, c: Seq<char>, fold: bool)
    requires
        text_le(a, b, fold),
        text_le(b, c, fold),
    ensures
        text_le(a, c, fold),
    decreases a.len(),
{
    if a.len() > 0 && b.len() > 0 && c.len() > 0 {
        if rank(a[0], fold) == rank(b[0], fold) && rank(b[0], fold) == rank(c[0], fold) {
            lemma_le_transitive(a.skip(1), b.skip(1), c.skip(1), fold);
        }
    }
}

fn rank_of(c: char, fold: bool) -> (r: u32)
    ensures
        r == rank(c, fold),
{
    let code: u32 = c as u32;
    if fold && 65 <= code && code <= 90 {
        code + 32
    } else {
        code
    }
}

/// Whether `a` comes before `b` or is equal to it.
pub fn comes_before(a: &str, b: &str, fold: bool) -> (yes: bool)
    ensures
        yes == text_le(a@, b@, fold),
{
    let left = chars_of(a);
    let right = chars_of(b);
    let mut i: usize = 0;
    assert(left@.skip(0) =~= left@);
    assert(right@.skip(0) =~= right@);
    while i < left.len() && i < right.len()
        invariant
            i <= left.len(),
            i <= right.len(),
            left@ == a@,
            right@ == b@,
            text_le(a@, b@, fold) == text_le(left@.skip(i as int), right@.skip(i as int), fold),
        decreases left.len() - i,
    {
        let x = rank_of(left[i], fold);
        let y = rank_of(right[i], fold);
        proof {
            assert(left@.skip(i as int)[0] == left@[i as int]);
            assert(right@.skip(i as int)[0] == right@[i as int]);
            assert(left@.skip(i as int).skip(1) =~= left@.skip(i + 1));
            assert(right@.skip(i as int).skip(1) =~= right@.skip(i + 1));
        }
        if x != y {
            return x < y;
        }
        i += 1;
    }
    proof {
        assert(left@.skip(i as int).len() == left.len() - i);
        assert(right@.skip(i as int).len() == right.len() - i);
    }
    i >= left.len()
}

/// Each of the first `n` numbers once.
pub open spec fn is_permutation(order: Seq<usize>, n: int) -> bool {
    &&& order.len() == n
    &&& forall|i: int| 0 <= i < order.len() ==> #[trigger] order[i] < n
    &&& forall|i: int, j: int|
        0 <= i < order.len() && 0 <= j < order.len() && i != j ==> #[trigger] order[i]
            != #[trigger] order[j]
}

/// The names, taken in this order, rise; names that are equal in the order
/// keep the order they came in.
pub open spec fn sorts(order: Seq<usize>, names: Seq<Seq<char>>, fold: bool) -> bool {
    forall|i: int, j: int|
        0 <= i < j < order.len() ==> text_le(
            names[#[trigger] order[i] as int],
            names[#[trigger] order[j] as int],
            fold,
        ) && (text_le(names[order[j] as int], names[order[i] as int], fold) ==> order[i]
            < order[j])
}

/// The order in which the names rise: a list of their places. Names that
/// are equal in the order stay as they came.
pub fn sort_order(names: &Vec<String>, fold: bool) -> (order: Vec<usize>)
    ensures
        is_permutation(order@, names@.len() as int),
        sorts(order@, texts(names@), fold),
{
    let n = names.len();
    let mut rest: Vec<usize> = Vec::new();
    let mut k: usize = 0;
    while k < n
        invariant
            k <= n,
            rest@.len() == k,
            forall|i: int| 0 <= i < k ==> rest@[i] == i,
        decreases n - k,
    {
        rest.push(k);
        k += 1;
    }
    let mut order: Vec<usize> = Vec::new();
    let ghost keys = texts(names@);
    while rest.len() > 0
        invariant
            n == names@.len(),
            keys == texts(names@),
            order@.len() + rest@.len() == n,
            forall|i: int| 0 <= i < order@.len() ==> #[trigger] order@[i] < n,
            forall|i: int| 0 <= i < rest@.len() ==> #[trigger] rest@[i] < n,
            forall|i: int, j: int| 0 <= i < j < rest@.len() ==> #[trigger] rest@[i] < #[trigger] rest@[j],
            forall|i: int, j: int|
                0 <= i < order@.len() && 0 <= j < order@.len() && i != j ==> #[trigger] order@[i]
                    != #[trigger] order@[j],
            forall|i: int, j: int|
                0 <= i < order@.len() && 0 <= j < rest@.len() ==> #[trigger] order@[i]
                    != #[trigger] rest@[j],
            sorts(order@, keys, fold),
            forall|i: int, j: int|
                0 <= i < order@.len() && 0 <= j < rest@.len() ==> text_le(
                    keys[#[trigger] order@[i] as int],
                    keys[#[trigger] rest@[j] as int],
                    fold,
                ) && (text_le(keys[rest@[j] as int], keys[order@[i] as int], fold) ==> order@[i]
                    < rest@[j]),
        decreases rest@.len(),
    {
        // The first of the least names still to be placed.
        let mut least: usize = 0;
        let mut j: usize = 1;
        proof {
            lemma_le_reflexive(keys[rest@[0] as int], fold);
        }
        while j < rest.len()
            invariant
                n == names@.len(),
                keys == texts(names@),
                0 <= least < j <= rest@.len(),
                forall|i: int| 0 <= i < rest@.len() ==> #[trigger] rest@[i] < n,
                forall|i: int|
                    0 <= i < j ==> text_le(
                        keys[rest@[least as int] as int],
                        keys[#[trigger] rest@[i] as int],
                        fold,
                    ),
                forall|i: int|
                    0 <= i < least ==> !text_le(
                        keys[#[trigger] rest@[i] as int],
                        keys[rest@[least as int] as int],
                        fold,
                    ),
            decreases rest@.len() - j,
        {
            let candidate = &names[rest[j]];
            let current = &names[rest[least]];
            if !comes_before(current.as_str(), candidate.as_str(), fold) {
                proof {
                    let low = keys[rest@[j as int] as int];
                    let high = keys[rest@[least as int] as int];
                    lemma_le_total(high, low, fold);
                    lemma_le_reflexive(low, fold);
                    assert forall|i: int| 0 <= i < j + 1 implies text_le(
                        low,
                        keys[#[trigger] rest@[i] as int],
                        fold,
                    ) by {
                        if i < j {
                            lemma_le_transitive(low, high, keys[rest@[i] as int], fold);
                        }
                    }
                    assert forall|i: int| 0 <= i < j implies !text_le(
                        keys[#[trigger] rest@[i] as int],
                        low,
                        fold,
                    ) by {
                        if text_le(keys[rest@[i] as int], low, fold) {
                            if i < least {
                                lemma_le_transitive(keys[rest@[i] as int], low, high, fold);
                            } else if i == least {
                            } else {
                                lemma_le_transitive(high, keys[rest@[i] as int], low, fold);
                            }
                        }
                    }
                }
                least = j;
            }
            j += 1;
        }
        let ghost before_rest = rest@;
        let ghost before_order = order@;
        let chosen = rest.remove(least);
        order.push(chosen);
        proof {
            let at = least as int;
            assert forall|i: int| 0 <= i < rest@.len() implies #[trigger] rest@[i]
                == before_rest[if i < at {
                i
            } else {
                i + 1
            }] by {}
            assert forall|i: int, j: int|
                0 <= i < order@.len() && 0 <= j < rest@.len() implies text_le(
                keys[#[trigger] order@[i] as int],
                keys[#[trigger] rest@[j] as int],
                fold,
            ) && (text_le(keys[rest@[j] as int], keys[order@[i] as int], fold) ==> order@[i]
                < rest@[j]) by {
                let j0 = if j < at {
                    j
                } else {
                    j + 1
                };
                assert(rest@[j] == before_rest[j0]);
                if i < before_order.len() {
                    assert(order@[i] == before_order[i]);
                } else {
                    assert(order@[i] == before_rest[at]);
                }
            }
            assert forall|i: int, j: int| 0 <= i < j < order@.len() implies text_le(
                keys[#[trigger] order@[i] as int],
                keys[#[trigger] order@[j] as int],
                fold,
            ) && (text_le(keys[order@[j] as int], keys[order@[i] as int], fold) ==> order@[i]
                < order@[j]) by {
                if j < before_order.len() {
                    assert(order@[i] == before_order[i]);
                    assert(order@[j] == before_order[j]);
                } else {
                    assert(order@[i] == before_order[i]);
                    assert(order@[j] == before_rest[at]);
                }
            }
            assert forall|i: int, j: int|
                0 <= i < order@.len() && 0 <= j < order@.len() && i != j implies #[trigger] order@[i]
                != #[trigger] order@[j] by {
                if i < before_order.len() {
                    assert(order@[i] == before_order[i]);
                }
                if j < before_order.len() {
                    assert(order@[j] == before_order[j]);
                }
            }
            assert forall|i: int, j: int|
                0 <= i < order@.len() && 0 <= j < rest@.len() implies #[trigger] order@[i]
                != #[trigger] rest@[j] by {
                let j0 = if j < at {
                    j
                } else {
                    j + 1
                };
                assert(rest@[j] == before_rest[j0]);
                if i < before_order.len() {
                    assert(order@[i] == before_order[i]);
                }
            }
            assert forall|i: int, j: int| 0 <= i < j < rest@.len() implies #[trigger] rest@[i]
                < #[trigger] rest@[j] by {
                let i0 = if i < at {
                    i
                } else {
                    i + 1
                };
                let j0 = if j < at {
                    j
                } else {
                    j + 1
                };
                assert(rest@[i] == before_rest[i0]);
                assert(rest@[j] == before_rest[j0]);
            }
        }
    }
    order
}

} // verus!
