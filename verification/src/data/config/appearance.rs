//! How the editor looks and behaves, as far as it is data.

use vstd::prelude::*;

verus! {

/// The characters that the editor closes by itself, each with the character
/// that closes it.
pub open spec fn default_pairs_spec() -> Seq<(char, char)> {
    seq![('(', ')'), ('"', '"'), ('[', ']'), ('{', '}')]
}

/// The characters that the editor closes by itself unless told otherwise.
pub fn default_pairs() -> (pairs: Vec<(char, char)>)
    ensures
        pairs@ == default_pairs_spec(),
{
    let mut pairs: Vec<(char, char)> = Vec::new();
    pairs.push(('(', ')'));
    pairs.push(('"', '"'));
    pairs.push(('[', ']'));
    pairs.push(('{', '}'));
    assert(pairs@ =~= default_pairs_spec());
    pairs
}

/// The character that closes `opening`, if the editor closes it.
pub fn closing_of(pairs: &Vec<(char, char)>, opening: char) -> (closing: Option<char>)
    ensures
        match closing {
            Some(c) => exists|i: int|
                0 <= i < pairs@.len() && pairs@[i] == (opening, c) && forall|k: int|
                    0 <= k < i ==> (#[trigger] pairs@[k]).0 != opening,
            None => forall|i: int| 0 <= i < pairs@.len() ==> (#[trigger] pairs@[i]).0 != opening,
        },
{
    let mut i: usize = 0;
    while i < pairs.len()
        invariant
            i <= pairs.len(),
            forall|k: int| 0 <= k < i ==> (#[trigger] pairs@[k]).0 != opening,
        decreases pairs.len() - i,
    {
        if pairs[i].0 == opening {
            return Some(pairs[i].1);
        }
        i += 1;
    }
    None
}

} // verus!
