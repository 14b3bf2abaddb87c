//! The guessable alphabet: the 26 lowercase Latin letters.

use vstd::prelude::*;

verus! {

/// Whether `c` is one of the 26 lowercase Latin letters `a` to `z`.
///
/// Only these characters are ever masked; anything else in a word is shown
/// as it is.
pub open spec fn is_letter(c: char) -> bool {
    'a' <= c && c <= 'z'
}

/// The ASCII lowercase form of `c`: `A` to `Z` become `a` to `z`, every
/// other character stays as it is.
pub open spec fn ascii_lower(c: char) -> char {
    if 'A' <= c && c <= 'Z' {
        ((c as u32) + 32) as char
    } else {
        c
    }
}

/// `char::to_ascii_lowercase` of the standard library maps the ASCII letters
/// `A` to `Z` to `a` to `z` and returns any other character unchanged.
pub assume_specification[ char::to_ascii_lowercase ](c: &char) -> (r: char)
    ensures
        r == ascii_lower(*c),
;

/// Decides whether `c` can be guessed, that is whether it is masked until
/// the player names it.
pub fn is_guessable(c: char) -> (r: bool)
    ensures
        r == is_letter(c),
{
    'a' <= c && c <= 'z'
}

} // verus!
