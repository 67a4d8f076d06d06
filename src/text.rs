use vstd::prelude::*;

verus! {

/// Relies on std's `FromIterator<char>` for `String` (`collect`): the text
/// holds the characters in order.
#[verifier::external_body]
pub(crate) fn chars_to_string(v: &Vec<char>) -> (r: String)
    ensures
        r@ == v@,
{
    v.iter().collect()
}

} // verus!
