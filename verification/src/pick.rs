//! Choosing the target word at random.

use vstd::prelude::*;
use rand::seq::SliceRandom;

verus! {

/// The thread-local random number generator of `rand`.
#[verifier::external_type_specification]
#[verifier::external_body]
pub struct ExThreadRng(rand::rngs::ThreadRng);

/// `rand::thread_rng` hands out the generator of the current thread, which
/// the operating system seeds on first use. Nothing is claimed of the
/// numbers it will give; where the system yields no entropy to seed it, the
/// call panics.
pub assume_specification[ rand::thread_rng ]() -> (rng: rand::rngs::ThreadRng);

/// `SliceRandom::choose` returns `None` for an empty slice and otherwise a
/// reference to the element at an index that the generator picked within
/// the slice. Which element it is stays open.
#[verifier::external_body]
fn choose_word<'a>(words: &'a Vec<String>, rng: &mut rand::rngs::ThreadRng) -> (r: Option<
    &'a String,
>)
    ensures
        r is None <==> words@.len() == 0,
        r matches Some(w) ==> words@.contains(*w),
{
    words.choose(rng)
}

/// Picks one word of the list at random.
///
/// Returns `None` exactly when the list is empty. Otherwise the result is a
/// copy of one of the listed words; every call may pick another.
pub fn pick_word(words: &Vec<String>) -> (r: Option<String>)
    ensures
        r is None <==> words@.len() == 0,
        r matches Some(w) ==> words@.contains(w),
{
    let mut rng = rand::thread_rng();
    match choose_word(words, &mut rng) {
        Some(w) => Some(w.clone()),
        None => None,
    }
}

} // verus!
