//! ASCII lowercasing, used to derive a variant's default display name.

use vstd::prelude::*;

verus! {

/// The ASCII lowercase image of one character: `'A'..='Z'` map to
/// `'a'..='z'`, every other character is unchanged.
pub open spec fn lower_char(c: char) -> char {
    if 'A' <= c && c <= 'Z' {
        (((c as u32) + 32) as u32) as char
    } else {
        c
    }
}

/// The character-wise ASCII lowercase image of a string.
pub open spec fn spec_lower(s: Seq<char>) -> Seq<char> {
    s.map_values(|c: char| lower_char(c))
}

/// Whether a string holds the given literal text.
pub fn text_is(s: &String, lit: &str) -> (r: bool)
    ensures
        r == (s@ == lit@),
{
    s.eq(&lit.to_owned())
}

/// Relies on `str::to_ascii_lowercase`: each ASCII upper-case letter is
/// mapped to its lower-case equivalent and every other character is copied
/// unchanged, so the result is the character-wise image of the input.
pub assume_specification[ str::to_ascii_lowercase ](s: &str) -> (r: String)
    ensures
        r@ == spec_lower(s@),
;

} // verus!
