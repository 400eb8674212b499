//! Joining element texts with the separator, and putting the pieces of a
//! text together.

use vstd::prelude::*;

verus! {

/// The text that stands between two elements: a comma and a space.
pub open spec fn separator() -> Seq<char> {
    seq![',', ' ']
}

/// The element texts in order, with the separator between each two of them.
pub open spec fn joined(items: Seq<Seq<char>>) -> Seq<char>
    decreases items.len(),
{
    if items.len() == 0 {
        Seq::empty()
    } else if items.len() == 1 {
        items[0]
    } else {
        items[0] + separator() + joined(items.drop_first())
    }
}

/// The texts that a vector of strings holds, in order.
pub open spec fn texts(strings: Seq<String>) -> Seq<Seq<char>> {
    strings.map_values(|s: String| s@)
}

/// A single text is joined to itself: no separator is added.
pub proof fn lemma_joined_single(head: Seq<char>)
    ensures
        joined(seq![head]) == head,
{
}

/// Joining a text in front of further texts puts the text first, then the
/// separator, then the further texts joined.
pub proof fn lemma_joined_cons(head: Seq<char>, rest: Seq<Seq<char>>)
    requires
        rest.len() > 0,
    ensures
        joined(seq![head] + rest) == head + separator() + joined(rest),
{
    let items = seq![head] + rest;
    assert(items.drop_first() =~= rest);
}

/// One piece put together is the piece.
pub proof fn lemma_flatten_single(piece: Seq<char>)
    ensures
        seq![piece].flatten() == piece,
{
    seq![piece].lemma_flatten_one_element();
}

/// Pieces followed by further pieces, put together, are the first put
/// together followed by the others put together.
pub proof fn lemma_flatten_concat(first: Seq<Seq<char>>, second: Seq<Seq<char>>)
    ensures
        (first + second).flatten() == first.flatten() + second.flatten(),
    decreases first.len(),
{
    if first.len() == 0 {
        assert(first + second =~= second);
        assert(first.flatten() + second.flatten() =~= second.flatten());
    } else {
        let all = first + second;
        assert(all.drop_first() =~= first.drop_first() + second);
        lemma_flatten_concat(first.drop_first(), second);
        assert(all.flatten() =~= first.flatten() + second.flatten());
    }
}

/// Appends `piece` to `out`.
pub(crate) fn push_piece(out: &mut Vec<String>, piece: String)
    ensures
        texts(final(out)@) == texts(old(out)@) + seq![piece@],
{
    out.push(piece);
    assert(texts(out@) =~= texts(old(out)@) + seq![piece@]);
}

} // verus!
