//! What this library needs of `String` beyond what `vstd` specifies.

use vstd::prelude::*;

verus! {

/// Calls `String::push`, which appends the character to the end of the
/// string. Unproved: the contract restates that documented behaviour, that
/// the string afterwards is the string before with `c` added as its last
/// character.
#[verifier::external_body]
pub(crate) fn push_char(text: &mut String, c: char)
    ensures
        final(text)@ == old(text)@.push(c),
{
    text.push(c)
}

} // verus!
