//! Small text utilities shared by the rest of the crate: the characters of a
//! string, fields separated by a character, and joining them again.

use vstd::prelude::*;

verus! {

/// The texts held by a sequence of strings.
pub open spec fn texts(v: Seq<String>) -> Seq<Seq<char>> {
    Seq::new(v.len(), |i: int| v[i]@)
}

/// The fields of `s` that `sep` separates. A text without `sep` is one field;
/// the empty text is one empty field.
pub open spec fn split(s: Seq<char>, sep: char) -> Seq<Seq<char>>
    decreases s.len(),
{
    if s.len() == 0 {
        seq![Seq::<char>::empty()]
    } else {
        let before = split(s.drop_last(), sep);
        if s.last() == sep {
            before.push(Seq::<char>::empty())
        } else {
            before.drop_last().push(before.last().push(s.last()))
        }
    }
}

/// The fields put together again with `sep` between neighbours.
pub open spec fn joined(fields: Seq<Seq<char>>, sep: char) -> Seq<char>
    decreases fields.len(),
{
    if fields.len() == 0 {
        Seq::<char>::empty()
    } else if fields.len() == 1 {
        fields[0]
    } else {
        joined(fields.drop_last(), sep).push(sep) + fields.last()
    }
}

/// `split` always yields at least one field.
pub proof fn lemma_split_nonempty(s: Seq<char>, sep: char)
    ensures
        split(s, sep).len() >= 1,
    decreases s.len(),
{
    if s.len() > 0 {
        lemma_split_nonempty(s.drop_last(), sep);
    }
}

/// Splitting what `joined` built gives the fields back, provided no field
/// holds the separator and there is at least one field.
pub proof fn lemma_split_joined(fields: Seq<Seq<char>>, sep: char)
    requires
        fields.len() >= 1,
        forall|i: int, j: int|
            0 <= i < fields.len() && 0 <= j < fields[i].len() ==> fields[i][j] != sep,
    ensures
        split(joined(fields, sep), sep) == fields,
    decreases fields.len(),
{
    if fields.len() == 1 {
        lemma_split_clean(fields[0], sep);
        assert(fields =~= seq![fields[0]]);
    } else {
        let init = fields.drop_last();
        lemma_split_joined(init, sep);
        let head = joined(init, sep).push(sep);
        assert(head.drop_last() =~= joined(init, sep));
        assert(split(head, sep) == init.push(Seq::<char>::empty()));
        lemma_split_append(head, fields.last(), sep);
        assert(init.push(Seq::<char>::empty()).drop_last() =~= init);
        assert(Seq::<char>::empty() + fields.last() =~= fields.last());
        assert(init.push(fields.last()) =~= fields);
    }
}

/// A text without the separator is a single field.
pub proof fn lemma_split_clean(s: Seq<char>, sep: char)
    requires
        forall|j: int| 0 <= j < s.len() ==> s[j] != sep,
    ensures
        split(s, sep) == seq![s],
    decreases s.len(),
{
    if s.len() == 0 {
        assert(s =~= Seq::<char>::empty());
    } else {
        lemma_split_clean(s.drop_last(), sep);
        let before = split(s.drop_last(), sep);
        assert(before.drop_last() =~= Seq::<Seq<char>>::empty());
        assert(s.drop_last().push(s.last()) =~= s);
        assert(before.drop_last().push(before.last().push(s.last())) =~= seq![s]);
    }
}

/// Appending a text without the separator only lengthens the last field.
pub proof fn lemma_split_append(s: Seq<char>, tail: Seq<char>, sep: char)
    requires
        forall|j: int| 0 <= j < tail.len() ==> tail[j] != sep,
    ensures
        split(s + tail, sep) == split(s, sep).drop_last().push(split(s, sep).last() + tail),
    decreases tail.len(),
{
    lemma_split_nonempty(s, sep);
    let fields = split(s, sep);
    if tail.len() == 0 {
        assert(s + tail =~= s);
        assert(fields.last() + tail =~= fields.last());
        assert(fields.drop_last().push(fields.last()) =~= fields);
    } else {
        let shorter = tail.drop_last();
        lemma_split_append(s, shorter, sep);
        let whole = s + tail;
        assert(whole.drop_last() =~= s + shorter);
        assert(whole.last() == tail.last());
        let before = split(s + shorter, sep);
        assert(before == fields.drop_last().push(fields.last() + shorter));
        assert(before.drop_last() =~= fields.drop_last());
        assert(before.last() == fields.last() + shorter);
        assert((fields.last() + shorter).push(tail.last()) =~= fields.last() + tail);
    }
}

/// A separator in front adds an empty field in front.
pub proof fn lemma_split_prepend(s: Seq<char>, sep: char)
    ensures
        split(seq![sep] + s, sep) == seq![Seq::<char>::empty()] + split(s, sep),
    decreases s.len(),
{
    let whole = seq![sep] + s;
    let empty = Seq::<char>::empty();
    if s.len() == 0 {
        assert(whole =~= seq![sep]);
        assert(whole.drop_last() =~= empty);
        assert(whole.last() == sep);
        assert(split(whole.drop_last(), sep) == seq![empty]);
        assert(split(s, sep) == seq![empty]);
        assert(seq![empty].push(empty) =~= seq![empty] + seq![empty]);
    } else {
        lemma_split_prepend(s.drop_last(), sep);
        lemma_split_nonempty(s.drop_last(), sep);
        assert(whole.drop_last() =~= seq![sep] + s.drop_last());
        assert(whole.last() == s.last());
        let before = split(s.drop_last(), sep);
        let shifted = seq![empty] + before;
        assert(split(whole.drop_last(), sep) == shifted);
        if s.last() == sep {
            assert(shifted.push(empty) =~= seq![empty] + before.push(empty));
        } else {
            assert(shifted.drop_last() =~= seq![empty] + before.drop_last());
            assert(shifted.last() == before.last());
            assert(shifted.drop_last().push(shifted.last().push(s.last())) =~= seq![empty]
                + before.drop_last().push(before.last().push(s.last())));
        }
    }
}

/// What is joined of fields that are free of a character, with a separator
/// that is not that character, is free of it.
pub proof fn lemma_joined_free(fields: Seq<Seq<char>>, sep: char, c: char)
    requires
        sep != c,
        forall|i: int, j: int|
            0 <= i < fields.len() && 0 <= j < fields[i].len() ==> fields[i][j] != c,
    ensures
        forall|k: int| 0 <= k < joined(fields, sep).len() ==> joined(fields, sep)[k] != c,
    decreases fields.len(),
{
    let whole = joined(fields, sep);
    if fields.len() >= 2 {
        let init = fields.drop_last();
        assert forall|i: int, j: int|
            0 <= i < init.len() && 0 <= j < init[i].len() implies init[i][j] != c by {
            assert(init[i] == fields[i]);
        }
        lemma_joined_free(init, sep, c);
        let head = joined(init, sep).push(sep);
        assert forall|k: int| 0 <= k < whole.len() implies whole[k] != c by {
            if k < head.len() - 1 {
                assert(whole[k] == joined(init, sep)[k]);
            } else if k == head.len() - 1 {
                assert(whole[k] == sep);
            } else {
                assert(whole[k] == fields[fields.len() - 1][k - head.len()]);
            }
        }
    } else if fields.len() == 1 {
        assert forall|k: int| 0 <= k < whole.len() implies whole[k] != c by {
            assert(whole[k] == fields[0][k]);
        }
    }
}

/// What is joined of fields begins with the first field.
pub proof fn lemma_joined_begins(fields: Seq<Seq<char>>, sep: char)
    requires
        fields.len() >= 1,
    ensures
        fields[0].is_prefix_of(joined(fields, sep)),
    decreases fields.len(),
{
    if fields.len() == 1 {
        assert(fields[0] =~= joined(fields, sep).subrange(0, fields[0].len() as int));
    } else {
        let init = fields.drop_last();
        lemma_joined_begins(init, sep);
        assert(init[0] == fields[0]);
        let whole = joined(fields, sep);
        assert(fields[0] =~= whole.subrange(0, fields[0].len() as int)) by {
            assert(fields[0] =~= joined(init, sep).subrange(0, fields[0].len() as int));
        }
    }
}

/// Collects the characters of `text` in order.
pub fn chars_of(text: &str) -> (out: Vec<char>)
    ensures
        out@ == text@,
{
    let mut out: Vec<char> = Vec::new();
    for c in it: text.chars()
        invariant
            out@ == it.seq().take(it.index() as int),
            it.seq() == text@,
    {
        out.push(c);
    }
    out
}

/// `String::from_iter`, over the characters of a vector: the string that
/// holds exactly those characters, in their order.
#[verifier::external_body]
pub(crate) fn string_of(chars: &Vec<char>) -> (out: String)
    ensures
        out@ == chars@,
{
    String::from_iter(chars.iter())
}

/// Whether two texts hold the same characters.
pub fn same_text(a: &str, b: &str) -> (same: bool)
    ensures
        same == (a@ == b@),
{
    let left = chars_of(a);
    let right = chars_of(b);
    if left.len() != right.len() {
        return false;
    }
    let mut i: usize = 0;
    while i < left.len()
        invariant
            i <= left.len(),
            left.len() == right.len(),
            left@ == a@,
            right@ == b@,
            forall|k: int| 0 <= k < i ==> left@[k] == right@[k],
        decreases left.len() - i,
    {
        if left[i] != right[i] {
            return false;
        }
        i += 1;
    }
    assert(left@ =~= right@);
    true
}

/// Splits `text` at every `sep`.
pub fn split_text(text: &str, sep: char) -> (fields: Vec<String>)
    ensures
        texts(fields@) == split(text@, sep),
        fields@.len() >= 1,
{
    let chars = chars_of(text);
    let mut fields: Vec<String> = Vec::new();
    let mut current: Vec<char> = Vec::new();
    let mut i: usize = 0;
    assert(chars@.take(0) =~= Seq::<char>::empty());
    assert(texts(fields@).push(current@) =~= seq![Seq::<char>::empty()]);
    while i < chars.len()
        invariant
            i <= chars.len(),
            chars@ == text@,
            texts(fields@).push(current@) == split(chars@.take(i as int), sep),
        decreases chars.len() - i,
    {
        let c = chars[i];
        let ghost before = split(chars@.take(i as int), sep);
        proof {
            let next = chars@.take(i + 1);
            assert(next.drop_last() =~= chars@.take(i as int));
            assert(next.last() == c);
            assert(before.drop_last() =~= texts(fields@));
            assert(before.last() == current@);
        }
        if c == sep {
            let done = string_of(&current);
            let ghost old_fields = fields@;
            fields.push(done);
            current = Vec::new();
            proof {
                assert(texts(fields@) =~= texts(old_fields).push(done@));
                assert(texts(fields@).push(current@) =~= before.push(Seq::<char>::empty()));
            }
        } else {
            current.push(c);
        }
        i += 1;
    }
    let done = string_of(&current);
    let ghost old_fields = fields@;
    fields.push(done);
    proof {
        assert(chars@.take(chars.len() as int) =~= chars@);
        assert(texts(fields@) =~= texts(old_fields).push(done@));
    }
    fields
}

/// Joins `fields` with `sep` between neighbours.
pub fn join_text(fields: &Vec<String>, sep: char) -> (out: String)
    ensures
        out@ == joined(texts(fields@), sep),
{
    let mut out: Vec<char> = Vec::new();
    let mut i: usize = 0;
    assert(texts(fields@).take(0) =~= Seq::<Seq<char>>::empty());
    while i < fields.len()
        invariant
            i <= fields.len(),
            out@ == joined(texts(fields@).take(i as int), sep),
        decreases fields.len() - i,
    {
        let ghost upto = texts(fields@).take(i + 1);
        proof {
            assert(upto.drop_last() =~= texts(fields@).take(i as int));
            assert(upto.last() == fields@[i as int]@);
        }
        if i > 0 {
            out.push(sep);
        }
        let field = chars_of(fields[i].as_str());
        let ghost base = out@;
        let mut j: usize = 0;
        while j < field.len()
            invariant
                j <= field.len(),
                out@ == base + field@.take(j as int),
            decreases field.len() - j,
        {
            out.push(field[j]);
            proof {
                assert(field@.take(j + 1) =~= field@.take(j as int).push(field@[j as int]));
            }
            j += 1;
        }
        proof {
            assert(field@.take(field.len() as int) =~= field@);
            if i == 0 {
                assert(upto =~= seq![field@]);
                assert(base + field@ =~= field@);
            }
        }
        i += 1;
    }
    proof {
        assert(texts(fields@).take(fields.len() as int) =~= texts(fields@));
    }
    string_of(&out)
}

} // verus!
