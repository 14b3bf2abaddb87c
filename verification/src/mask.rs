//! What the player is shown: the masked word and the list of guesses.

use vstd::prelude::*;
use crate::alphabet::{is_letter, is_guessable};

verus! {

/// What is displayed in place of the target character `t`: the character
/// itself where it is not a letter or has been guessed, the fill character
/// otherwise.
pub open spec fn shown(t: char, guessed: Seq<char>, fill: char) -> char {
    if !is_letter(t) || guessed.contains(t) {
        t
    } else {
        fill
    }
}

/// The masked form of `target` under the characters `guessed`: position by
/// position what `shown` gives.
pub open spec fn masked(target: Seq<char>, guessed: Seq<char>, fill: char) -> Seq<char> {
    Seq::new(target.len(), |i: int| shown(target[i], guessed, fill))
}

/// Whether `c` occurs among `chars`.
pub fn contains_char(chars: &Vec<char>, c: char) -> (r: bool)
    ensures
        r == chars@.contains(c),
{
    let mut i: usize = 0;
    while i < chars.len()
        invariant
            i <= chars.len(),
            forall|j: int| 0 <= j < i ==> chars@[j] != c,
        decreases chars.len() - i,
    {
        if chars[i] == c {
            return true;
        }
        i += 1;
    }
    false
}

/// Renders `target` with every letter that is not among `guessed` replaced
/// by `fill`. `target` is taken as it is: the caller lowercases it first.
pub fn mask_word(target: &str, guessed: &Vec<char>, fill: char) -> (r: String)
    ensures
        r@ == masked(target@, guessed@, fill),
{
    let mut out = String::new();
    for c in it: target.chars()
        invariant
            it.seq() == target@,
            out@ == masked(target@.take(it.index() as int), guessed@, fill),
    {
        let d = if !is_guessable(c) {
            c
        } else if contains_char(guessed, c) {
            c
        } else {
            fill
        };
        out.push(d);
    }
    out
}

/// The characters of `chars` in their order, each but the first preceded
/// by a comma and a space.
pub open spec fn listed(chars: Seq<char>) -> Seq<char>
    decreases chars.len(),
{
    if chars.len() == 0 {
        Seq::empty()
    } else if chars.len() == 1 {
        seq![chars[0]]
    } else {
        listed(chars.drop_last()) + seq![',', ' ', chars.last()]
    }
}

/// Writes `chars` out as a comma-separated list, in their order.
pub fn list_chars(chars: &Vec<char>) -> (r: String)
    ensures
        r@ == listed(chars@),
{
    let mut out = String::new();
    let mut i: usize = 0;
    while i < chars.len()
        invariant
            i <= chars.len(),
            out@ == listed(chars@.take(i as int)),
        decreases chars.len() - i,
    {
        let ghost before = out@;
        if i > 0 {
            out.push(',');
            out.push(' ');
        }
        out.push(chars[i]);
        proof {
            let now = chars@.take(i + 1);
            assert(now.drop_last() =~= chars@.take(i as int));
            assert(now.last() == chars@[i as int]);
            if i > 0 {
                assert(out@ =~= before + seq![',', ' ', chars@[i as int]]);
            } else {
                assert(out@ =~= seq![chars@[0]]);
            }
        }
        i += 1;
    }
    proof {
        assert(chars@.take(chars.len() as int) =~= chars@);
    }
    out
}

} // verus!
