//! Completions: narrowing what the completion engine proposes to what the
//! user has begun to type.

use crate::file_manager::export::errors::append_text;
use crate::text::chars_of;
use vstd::prelude::*;

verus! {

/// A proposal of the completion engine.
#[derive(Clone, Debug, PartialEq, Eq)]
pub struct Completion {
    /// What kind of thing is proposed.
    pub kind: String,
    /// The proposal as it is listed.
    pub label: String,
    /// What is put into the text, where that is not the label.
    pub apply: Option<String>,
    /// A word on the proposal.
    pub detail: Option<String>,
}

/// The line that lists a proposal: its kind in brackets, its label, and a
/// word on it.
pub open spec fn line_of(completion: Completion) -> Seq<char> {
    "("@ + completion.kind@ + ") "@ + completion.label@ + " - "@ + match completion.detail {
        Some(detail) => detail@,
        None => "no description..."@,
    }
}

impl Completion {
    /// The line that lists the proposal.
    pub fn to_string(&self) -> (line: String)
        ensures
            line@ == line_of(*self),
    {
        let detail = match &self.detail {
            Some(detail) => detail.clone(),
            None => String::from_str("no description..."),
        };
        let a = append_text("(", self.kind.as_str());
        let b = append_text(a.as_str(), ") ");
        let c = append_text(b.as_str(), self.label.as_str());
        let d = append_text(c.as_str(), " - ");
        append_text(d.as_str(), detail.as_str())
    }
}

/// The labels of proposals.
pub open spec fn labels(completions: Seq<Completion>) -> Seq<Seq<char>> {
    Seq::new(completions.len(), |i: int| completions[i].label@)
}

/// The proposals whose label begins with `word`, in order.
pub open spec fn beginning_with(available: Seq<Completion>, word: Seq<char>) -> Seq<Completion>
    decreases available.len(),
{
    if available.len() == 0 {
        available
    } else if word.is_prefix_of(available.last().label@) {
        beginning_with(available.drop_last(), word).push(available.last())
    } else {
        beginning_with(available.drop_last(), word)
    }
}

/// Whether `text` begins with `word`.
pub fn starts_with(text: &str, word: &str) -> (yes: bool)
    ensures
        yes == word@.is_prefix_of(text@),
{
    let whole = chars_of(text);
    let part = chars_of(word);
    if part.len() > whole.len() {
        return false;
    }
    let mut i: usize = 0;
    while i < part.len()
        invariant
            i <= part.len(),
            part.len() <= whole.len(),
            whole@ == text@,
            part@ == word@,
            forall|k: int| 0 <= k < i ==> part@[k] == whole@[k],
        decreases part.len() - i,
    {
        if part[i] != whole[i] {
            assert(word@[i as int] != text@.subrange(0, word@.len() as int)[i as int]);
            return false;
        }
        i += 1;
    }
    assert(word@ =~= text@.subrange(0, word@.len() as int));
    true
}

/// A copy of a text that may be missing.
fn copy_text(text: &Option<String>) -> (out: Option<String>)
    ensures
        out == *text,
{
    match text {
        Some(text) => Some(text.clone()),
        None => None,
    }
}

/// The proposals whose label begins with `word`.
pub fn complete_word(word: &str, available: &Vec<Completion>) -> (completions: Option<
    Vec<Completion>,
>)
    ensures
        completions matches Some(list) && list@ == beginning_with(available@, word@),
{
    let mut completions: Vec<Completion> = Vec::new();
    let mut i: usize = 0;
    assert(available@.take(0) =~= Seq::<Completion>::empty());
    while i < available.len()
        invariant
            i <= available.len(),
            completions@ == beginning_with(available@.take(i as int), word@),
        decreases available.len() - i,
    {
        proof {
            let upto = available@.take(i + 1);
            assert(upto.drop_last() =~= available@.take(i as int));
            assert(upto.last() == available@[i as int]);
        }
        let completion = &available[i];
        if starts_with(completion.label.as_str(), word) {
            completions.push(
                Completion {
                    kind: completion.kind.clone(),
                    label: completion.label.clone(),
                    apply: copy_text(&completion.apply),
                    detail: copy_text(&completion.detail),
                },
            );
        }
        i += 1;
    }
    assert(available@.take(available.len() as int) =~= available@);
    Some(completions)
}

/// What is offered at the cursor: `pos` is where the engine starts the
/// word to complete, `start` what stands between there and the cursor,
/// none where that cannot be read. The engine's proposals are narrowed to
/// those that begin with what stands there.
pub fn autocomplete(pos: usize, start: Option<&str>, completions: Vec<Completion>) -> (offered: Option<
    (usize, Vec<Completion>),
>)
    ensures
        match start {
            None => offered is None,
            Some(word) => offered matches Some(pair) && pair.0 == pos && pair.1@ == if word@.len()
                == 0 {
                completions@
            } else {
                beginning_with(completions@, word@)
            },
        },
{
    match start {
        None => None,
        Some(word) => {
            if word.unicode_len() != 0 {
                match complete_word(word, &completions) {
                    Some(list) => Some((pos, list)),
                    None => None,
                }
            } else {
                Some((pos, completions))
            }
        },
    }
}

/// The number of bytes that write a character in UTF-8.
pub open spec fn utf8_width(c: char) -> int {
    vstd::utf8::encode_scalar(c as u32).len() as int
}

/// The number of leading characters of `text` that `bytes` bytes of UTF-8
/// write; none where that many bytes end inside a character or beyond the
/// text.
pub open spec fn chars_in(text: Seq<char>, bytes: int) -> Option<int>
    decreases text.len(),
{
    if bytes == 0 {
        Some(0)
    } else if text.len() == 0 || bytes < utf8_width(text[0]) {
        None
    } else {
        match chars_in(text.skip(1), bytes - utf8_width(text[0])) {
            Some(k) => Some(k + 1),
            None => None,
        }
    }
}

/// What is still to be typed of `apply` once its first `typed` bytes stand
/// in the text; nothing where `apply` is not that long or the bytes end
/// inside a character.
pub open spec fn remainder(apply: Seq<char>, typed: int) -> Seq<char> {
    match chars_in(apply, typed) {
        Some(k) => apply.skip(k),
        None => Seq::empty(),
    }
}

/// `chars_in` counts the characters of the one prefix that is so many bytes
/// long in UTF-8, and finds none exactly where there is no such prefix.
pub proof fn lemma_chars_in(text: Seq<char>, bytes: int, k: int)
    ensures
        chars_in(text, bytes) == Some(k) <==> 0 <= k <= text.len() && vstd::utf8::encode_utf8(
            text.take(k),
        ).len() == bytes,
    decreases text.len(),
{
    let prefix = text.take(k);
    if 0 <= k <= text.len() && k > 0 {
        assert(prefix[0] == text[0]);
        assert(prefix.drop_first() =~= text.skip(1).take(k - 1));
    }
    if 0 <= k <= text.len() && k == 0 {
        assert(prefix =~= Seq::<char>::empty());
    }
    if text.len() > 0 {
        lemma_chars_in(text.skip(1), bytes - utf8_width(text[0]), k - 1);
        assert(utf8_width(text[0]) >= 1);
    }
    if bytes == 0 && 0 < k <= text.len() {
        assert(vstd::utf8::encode_utf8(prefix).len() >= utf8_width(text[0]));
    }
}

fn width_of(c: char) -> (width: usize)
    ensures
        width == utf8_width(c),
        1 <= width <= 4,
{
    proof {
        vstd::utf8::char_is_scalar(c);
    }
    let code: u32 = c as u32;
    if code < 0x80 {
        1
    } else if code < 0x800 {
        2
    } else if code < 0x10000 {
        3
    } else {
        4
    }
}

/// What a proposal puts into the text: its `apply`, or its label where it
/// has none.
pub open spec fn applied(completion: Completion) -> Seq<char> {
    match completion.apply {
        Some(apply) => apply@,
        None => completion.label@,
    }
}

/// What is pasted for a proposal when the cursor stands at the byte
/// `cursor` of the source and the word to complete starts at the byte
/// `pos`: the proposal without the bytes that are typed already.
pub fn apply_to(completion: &Completion, cursor: usize, pos: usize) -> (paste: String)
    ensures
        paste@ == remainder(applied(*completion), cursor - pos),
{
    let apply = match &completion.apply {
        Some(apply) => chars_of(apply.as_str()),
        None => chars_of(completion.label.as_str()),
    };
    let mut out: Vec<char> = Vec::new();
    if cursor < pos {
        proof {
            if apply@.len() > 0 {
                assert(utf8_width(apply@[0]) >= 0);
            }
        }
        return crate::text::string_of(&out);
    }
    let typed = cursor - pos;
    let mut left: usize = typed;
    let mut i: usize = 0;
    assert(apply@.skip(0) =~= apply@);
    while left > 0
        invariant
            i <= apply.len(),
            out@.len() == 0,
            apply@ == applied(*completion),
            typed == cursor - pos,
            chars_in(apply@, typed as int) == match chars_in(apply@.skip(i as int), left as int) {
                Some(k) => Some(k + i),
                None => None,
            },
        decreases left,
    {
        proof {
            if i < apply.len() {
                assert(apply@.skip(i as int)[0] == apply@[i as int]);
                assert(apply@.skip(i as int).skip(1) =~= apply@.skip(i + 1));
            }
        }
        if i >= apply.len() {
            return crate::text::string_of(&out);
        }
        let width = width_of(apply[i]);
        if width > left {
            return crate::text::string_of(&out);
        }
        left -= width;
        i += 1;
    }
    let from = i;
    while i < apply.len()
        invariant
            from <= i <= apply.len(),
            out@ == apply@.subrange(from as int, i as int),
        decreases apply.len() - i,
    {
        out.push(apply[i]);
        assert(apply@.subrange(from as int, i + 1) =~= apply@.subrange(
            from as int,
            i as int,
        ).push(apply@[i as int]));
        i += 1;
    }
    assert(apply@.subrange(from as int, apply.len() as int) =~= apply@.skip(from as int));
    crate::text::string_of(&out)
}

} // verus!
