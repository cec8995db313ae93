//! Strings and lists of strings, as contracts see them.

use vstd::prelude::*;

verus! {

/// `String::push` of the standard library, which is taken on trust.
///
/// Claimed: the character is added at the end and nothing else changes.
pub assume_specification[ String::push ](s: &mut String, ch: char)
    ensures
        final(s)@ == old(s)@.push(ch),
;

/// The strings of a list, each as its sequence of characters.
pub open spec fn texts(list: Seq<String>) -> Seq<Seq<char>> {
    Seq::new(list.len(), |i: int| list[i]@)
}

/// A list that grows by one string grows by that string's characters.
pub proof fn lemma_texts_push(list: Seq<String>, last: String)
    ensures
        texts(list.push(last)) == texts(list).push(last@),
{
    assert(texts(list.push(last)) =~= texts(list).push(last@));
}

} // verus!
