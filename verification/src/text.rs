//! Conversions between owned strings and their character sequences, used by
//! the input bar, which edits its buffer character by character.

use vstd::prelude::*;

verus! {

/// Relies on str::chars and Vec's FromIterator: yields exactly the string's
/// characters, in order.
#[verifier::external_body]
pub(crate) fn chars_of(s: &str) -> (r: Vec<char>)
    ensures
        r@ == s@,
{
    s.chars().collect()
}

/// Relies on String's FromIterator over characters: builds the string
/// holding exactly these characters, in order.
#[verifier::external_body]
pub(crate) fn string_from_chars(v: &Vec<char>) -> (r: String)
    ensures
        r@ == v@,
{
    v.iter().cloned().collect()
}

} // verus!
