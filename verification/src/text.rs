//! Conversions between `&str` / `String` and `Vec<char>`, so the verified
//! code can index and build text one character at a time.

use vstd::prelude::*;

verus! {

/// Relies on `str::chars` and `Vec: FromIterator<char>`: collecting the
/// characters of a string yields exactly the characters of its view.
#[verifier::external_body]
pub fn str_to_chars(s: &str) -> (r: Vec<char>)
    ensures
        r@ == s@,
{
    s.chars().collect()
}

/// Relies on `String: FromIterator<char>`: collecting characters into a
/// `String` yields a string whose view is exactly those characters.
#[verifier::external_body]
pub fn chars_to_string(cs: &Vec<char>) -> (r: String)
    ensures
        r@ == cs@,
{
    cs.iter().collect()
}

} // verus!
