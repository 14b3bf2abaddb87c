use word_guesser::distinct::optimal_guesses;
use word_guesser::mask::{contains_char, list_chars, mask_word};
use word_guesser::pick::pick_word;

#[test]
fn optimal_guesses_counts_distinct_characters() {
    assert_eq!(optimal_guesses(""), 0);
    assert_eq!(optimal_guesses("a"), 1);
    assert_eq!(optimal_guesses("cat"), 3);
    assert_eq!(optimal_guesses("moon"), 3);
    assert_eq!(optimal_guesses("Mississippi"), 4);
}

#[test]
fn optimal_guesses_counts_separated_repeats_once() {
    assert_eq!(optimal_guesses("abab"), 2);
    assert_eq!(optimal_guesses("abcabcabc"), 3);
    assert_eq!(optimal_guesses("zaza zaza"), 3);
}

#[test]
fn optimal_guesses_tells_case_apart_and_counts_non_letters() {
    assert_eq!(optimal_guesses("Bob"), 3);
    assert_eq!(optimal_guesses("aAbB"), 4);
    assert_eq!(optimal_guesses("x-ray 1"), 7);
    assert_eq!(optimal_guesses("\u{e9}t\u{e9}"), 2);
}

#[test]
fn mask_word_masks_unguessed_letters_only() {
    assert_eq!(mask_word("moon", &vec![], '.'), "....");
    assert_eq!(mask_word("moon", &vec!['o'], '.'), ".oo.");
    assert_eq!(mask_word("moon", &vec!['o', 'm', 'n'], '.'), "moon");
    assert_eq!(mask_word("a-b c", &vec!['b'], '#'), "#-b #");
    // Uppercase letters are not in the guessable alphabet: they are shown.
    assert_eq!(mask_word("Bob", &vec![], '.'), "B..");
    assert_eq!(mask_word("", &vec!['a'], '.'), "");
}

#[test]
fn contains_char_finds_what_is_there() {
    let chars = vec!['x', 'y', 'z'];
    assert!(contains_char(&chars, 'x'));
    assert!(contains_char(&chars, 'z'));
    assert!(!contains_char(&chars, 'a'));
    assert!(!contains_char(&vec![], 'a'));
}

#[test]
fn list_chars_separates_with_comma_and_space() {
    assert_eq!(list_chars(&vec![]), "");
    assert_eq!(list_chars(&vec!['q']), "q");
    assert_eq!(list_chars(&vec!['q', 'w']), "q, w");
    assert_eq!(list_chars(&vec![',', ' ', ',']), ",,  , ,");
}

#[test]
fn pick_word_of_nothing_is_none() {
    assert_eq!(pick_word(&Vec::new()), None);
}

#[test]
fn pick_word_returns_a_listed_word() {
    let one = vec![String::from("only")];
    assert_eq!(pick_word(&one), Some(String::from("only")));

    let words = vec![String::from("cat"), String::from("moon"), String::from("Bob")];
    for _ in 0..100 {
        let picked = pick_word(&words).expect("the list is not empty");
        assert!(words.contains(&picked));
    }
}
