//! What holds of every game, proved over the mathematical state.

use vstd::prelude::*;
use crate::alphabet::{ascii_lower, is_letter};
use crate::game::GameState;
use crate::mask::masked;
use crate::strings::lowercased;

verus! {

/// A game begins in a valid state: nothing guessed, nothing counted.
pub proof fn lemma_opening_is_valid(word: Seq<char>, fill: char)
    ensures
        GameState::opening(word, fill).valid(),
        GameState::opening(word, fill).guessed.len() == 0,
        GameState::opening(word, fill).guesses == 0,
{
}

/// A guess keeps the state valid: the guessed characters stay free of
/// duplicates and the counter stays equal to their number, whatever is
/// entered.
pub proof fn lemma_guess_keeps_valid(s: GameState, input: char)
    requires
        s.valid(),
    ensures
        s.after_guess(input).valid(),
        s.after_guess(input).guessed.no_duplicates(),
        s.after_guess(input).guesses == s.after_guess(input).guessed.len(),
{
    let c = ascii_lower(input);
    let next = s.after_guess(input);
    if !s.guessed.contains(c) {
        assert forall|i: int, j: int|
            0 <= i < next.guessed.len() && 0 <= j < next.guessed.len() && i != j implies next.guessed[i]
            != next.guessed[j] by {
            if i < s.guessed.len() && j < s.guessed.len() {
                assert(s.guessed[i] != s.guessed[j]);
            } else if i < s.guessed.len() {
                assert(s.guessed[i] != c);
            } else {
                assert(s.guessed[j] != c);
            }
        }
    }
}

/// Any run of guesses from a valid state ends in a valid state.
pub proof fn lemma_guesses_keep_valid(s: GameState, inputs: Seq<char>)
    requires
        s.valid(),
    ensures
        s.after_guesses(inputs).valid(),
        s.after_guesses(inputs).guessed.no_duplicates(),
        s.after_guesses(inputs).guesses == s.after_guesses(inputs).guessed.len(),
    decreases inputs.len(),
{
    if inputs.len() > 0 {
        lemma_guesses_keep_valid(s, inputs.drop_last());
        lemma_guess_keeps_valid(s.after_guesses(inputs.drop_last()), inputs.last());
    }
}

/// Entering the same character a second time changes nothing: it is
/// neither recorded nor counted again.
pub proof fn lemma_repeated_guess_changes_nothing(s: GameState, input: char)
    ensures
        s.after_guess(input).after_guess(input) == s.after_guess(input),
{
    let c = ascii_lower(input);
    if !s.guessed.contains(c) {
        let next = s.after_guess(input);
        assert(next.guessed[next.guessed.len() - 1] == c);
    }
}

/// A guess changes neither the word, the target nor the fill character.
/// What was guessed before stays in place, and the character entered is
/// among the guessed ones afterwards.
pub proof fn lemma_guess_records(s: GameState, input: char)
    ensures
        s.after_guess(input).word == s.word,
        s.after_guess(input).target == s.target,
        s.after_guess(input).fill == s.fill,
        s.guessed.is_prefix_of(s.after_guess(input).guessed),
        s.after_guess(input).guessed.contains(ascii_lower(input)),
{
    let c = ascii_lower(input);
    let next = s.after_guess(input);
    if !s.guessed.contains(c) {
        assert(next.guessed[next.guessed.len() - 1] == c);
    }
}

/// The guessed characters only grow: after any run of guesses the earlier
/// ones are still there, in their places, and every character entered is
/// among them in its ASCII lowercase form.
pub proof fn lemma_guesses_record(s: GameState, inputs: Seq<char>)
    ensures
        s.after_guesses(inputs).word == s.word,
        s.after_guesses(inputs).target == s.target,
        s.after_guesses(inputs).fill == s.fill,
        s.guessed.is_prefix_of(s.after_guesses(inputs).guessed),
        forall|k: int|
            0 <= k < inputs.len() ==> s.after_guesses(inputs).guessed.contains(
                ascii_lower(#[trigger] inputs[k]),
            ),
    decreases inputs.len(),
{
    if inputs.len() > 0 {
        let front = inputs.drop_last();
        let mid = s.after_guesses(front);
        let end = s.after_guesses(inputs);
        lemma_guesses_record(s, front);
        lemma_guess_records(mid, inputs.last());
        assert forall|k: int| 0 <= k < inputs.len() implies end.guessed.contains(
            ascii_lower(#[trigger] inputs[k]),
        ) by {
            if k < front.len() {
                assert(front[k] == inputs[k]);
                let c = ascii_lower(inputs[k]);
                assert(mid.guessed.contains(c));
                let i = choose|i: int| 0 <= i < mid.guessed.len() && mid.guessed[i] == c;
                assert(end.guessed[i] == c);
            }
        }
    }
}

/// A character of the target that is not a lowercase Latin letter is shown
/// as it is, whatever has been guessed and whatever the fill character is.
pub proof fn lemma_non_letters_always_shown(
    target: Seq<char>,
    guessed: Seq<char>,
    fill: char,
    i: int,
)
    requires
        0 <= i < target.len(),
        !is_letter(target[i]),
    ensures
        masked(target, guessed, fill).len() == target.len(),
        masked(target, guessed, fill)[i] == target[i],
{
}

/// Once every letter of the target is among the guessed characters, the
/// masked form is the target itself.
pub proof fn lemma_all_letters_guessed_shows_target(
    target: Seq<char>,
    guessed: Seq<char>,
    fill: char,
)
    requires
        forall|i: int|
            0 <= i < target.len() && is_letter(#[trigger] target[i]) ==> guessed.contains(
                target[i],
            ),
    ensures
        masked(target, guessed, fill) == target,
{
    assert(masked(target, guessed, fill) =~= target);
}

/// Guessing every letter of the target wins the game: if each lowercase
/// Latin letter of the target is the ASCII lowercase form of some input,
/// then after those inputs, in any order and with any others among them,
/// the display equals the target.
pub proof fn lemma_guessing_every_letter_wins(s: GameState, inputs: Seq<char>)
    requires
        forall|i: int|
            0 <= i < s.target.len() && is_letter(#[trigger] s.target[i]) ==> exists|k: int|
                0 <= k < inputs.len() && ascii_lower(#[trigger] inputs[k]) == s.target[i],
    ensures
        s.after_guesses(inputs).won(),
        s.after_guesses(inputs).display() == s.target,
{
    let end = s.after_guesses(inputs);
    lemma_guesses_record(s, inputs);
    assert forall|i: int|
        0 <= i < end.target.len() && is_letter(#[trigger] end.target[i]) implies end.guessed.contains(
        end.target[i],
    ) by {
        let k = choose|k: int|
            0 <= k < inputs.len() && ascii_lower(#[trigger] inputs[k]) == s.target[i];
        assert(end.guessed.contains(ascii_lower(inputs[k])));
    }
    lemma_all_letters_guessed_shows_target(end.target, end.guessed, end.fill);
}

/// For any word and any fill character: a game on that word shows the
/// lowercase form of the word once every lowercase Latin letter of that
/// form has been entered.
pub proof fn lemma_revealing_all_letters_shows_lowercased_word(
    word: Seq<char>,
    fill: char,
    inputs: Seq<char>,
)
    requires
        forall|i: int|
            0 <= i < lowercased(word).len() && is_letter(#[trigger] lowercased(word)[i])
                ==> exists|k: int|
                0 <= k < inputs.len() && ascii_lower(#[trigger] inputs[k]) == lowercased(word)[i],
    ensures
        GameState::opening(word, fill).after_guesses(inputs).display() == lowercased(word),
        GameState::opening(word, fill).after_guesses(inputs).won(),
{
    lemma_guessing_every_letter_wins(GameState::opening(word, fill), inputs);
}

/// A guess that does not occur in the target leaves the display as it was.
pub proof fn lemma_absent_guess_keeps_display(s: GameState, input: char)
    requires
        !s.target.contains(ascii_lower(input)),
    ensures
        s.after_guess(input).display() == s.display(),
{
    let c = ascii_lower(input);
    let next = s.after_guess(input);
    if !s.guessed.contains(c) {
        assert forall|i: int| 0 <= i < s.target.len() implies next.display()[i]
            == s.display()[i] by {
            let t = s.target[i];
            assert(t != c);
            if s.guessed.contains(t) {
                let k = choose|k: int| 0 <= k < s.guessed.len() && s.guessed[k] == t;
                assert(next.guessed[k] == t);
            }
            if next.guessed.contains(t) {
                let k = choose|k: int| 0 <= k < next.guessed.len() && next.guessed[k] == t;
                assert(k < s.guessed.len());
                assert(s.guessed[k] == t);
            }
        }
        assert(next.display() =~= s.display());
    }
}

/// A guess that is not a lowercase Latin letter once folded is taken like
/// any other: if new it is recorded and counted. It never changes the
/// display.
pub proof fn lemma_non_letter_guess_keeps_display(s: GameState, input: char)
    requires
        !is_letter(ascii_lower(input)),
    ensures
        s.after_guess(input).display() == s.display(),
        !s.guessed.contains(ascii_lower(input)) ==> {
            &&& s.after_guess(input).guessed == s.guessed.push(ascii_lower(input))
            &&& s.after_guess(input).guesses == s.guesses + 1
        },
{
    let c = ascii_lower(input);
    let next = s.after_guess(input);
    if !s.guessed.contains(c) {
        assert forall|i: int| 0 <= i < s.target.len() implies next.display()[i]
            == s.display()[i] by {
            let t = s.target[i];
            if is_letter(t) {
                assert(t != c);
                if s.guessed.contains(t) {
                    let k = choose|k: int| 0 <= k < s.guessed.len() && s.guessed[k] == t;
                    assert(next.guessed[k] == t);
                }
                if next.guessed.contains(t) {
                    let k = choose|k: int| 0 <= k < next.guessed.len() && next.guessed[k] == t;
                    assert(k < s.guessed.len());
                    assert(s.guessed[k] == t);
                }
            }
        }
        assert(next.display() =~= s.display());
    }
}

} // verus!
