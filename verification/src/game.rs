//! The game as a state machine: a state, a guess, the next state.

use vstd::prelude::*;
use crate::alphabet::ascii_lower;
use crate::distinct::optimal_guesses;
use crate::laws::lemma_guess_keeps_valid;
use crate::mask::{contains_char, list_chars, listed, mask_word, masked};
use crate::pick::pick_word;
use crate::strings::{lowercase, lowercased};

verus! {

/// The mathematical state of a game.
pub struct GameState {
    /// The target word as it was listed.
    pub word: Seq<char>,
    /// The lowercase form of the target word, which is what gets masked.
    pub target: Seq<char>,
    /// The characters guessed so far, in the order in which they came.
    pub guessed: Seq<char>,
    /// The number of guesses that counted.
    pub guesses: nat,
    /// The character shown in place of a letter not yet guessed.
    pub fill: char,
}

impl GameState {
    /// The state in which a game on `word` begins.
    pub open spec fn opening(word: Seq<char>, fill: char) -> GameState {
        GameState { word, target: lowercased(word), guessed: Seq::empty(), guesses: 0, fill }
    }

    /// What every state of a game satisfies: the target is the lowercase
    /// form of the word, no character was recorded twice, and the counter
    /// is the number of recorded characters.
    pub open spec fn valid(self) -> bool {
        &&& self.target == lowercased(self.word)
        &&& self.guessed.no_duplicates()
        &&& self.guesses == self.guessed.len()
    }

    /// The masked target as the player sees it.
    pub open spec fn display(self) -> Seq<char> {
        masked(self.target, self.guessed, self.fill)
    }

    /// Whether the display shows the whole target.
    pub open spec fn won(self) -> bool {
        self.display() == self.target
    }

    /// The state after the player entered `input`. The input is folded to
    /// ASCII lowercase; a character seen before changes nothing, a new one
    /// is appended and counted, whether or not it occurs in the target.
    pub open spec fn after_guess(self, input: char) -> GameState {
        let c = ascii_lower(input);
        if self.guessed.contains(c) {
            self
        } else {
            GameState { guessed: self.guessed.push(c), guesses: self.guesses + 1, ..self }
        }
    }

    /// The state after the player entered `inputs` one after the other.
    pub open spec fn after_guesses(self, inputs: Seq<char>) -> GameState
        decreases inputs.len(),
    {
        if inputs.len() == 0 {
            self
        } else {
            self.after_guesses(inputs.drop_last()).after_guess(inputs.last())
        }
    }
}

/// How a won game ended.
pub struct Outcome {
    /// The target word as it was listed, in its own casing.
    pub word: String,
    /// The number of guesses that counted.
    pub guesses: usize,
    /// The number of distinct characters of the word as it was listed.
    pub optimal: usize,
}

/// What the player is shown before the next guess.
pub struct Screen {
    /// The masked target.
    pub revealed: String,
    /// The guessed characters as a comma-separated list, in their order.
    pub guessed: String,
    /// The number of guesses that counted.
    pub guesses: usize,
    /// `Some` once the game is won, and with it nothing more is read;
    /// `None` while the next guess is awaited.
    pub outcome: Option<Outcome>,
}

/// A game in progress.
pub struct Game {
    word: String,
    target: String,
    guessed: Vec<char>,
    guesses: usize,
    fill: char,
}

impl View for Game {
    type V = GameState;

    closed spec fn view(&self) -> GameState {
        GameState {
            word: self.word@,
            target: self.target@,
            guessed: self.guessed@,
            guesses: self.guesses as nat,
            fill: self.fill,
        }
    }
}

impl Game {
    #[verifier::type_invariant]
    spec fn inv(&self) -> bool {
        self@.valid()
    }

    /// Begins a game on `word`, with `fill` as the mask character.
    pub fn new(word: String, fill: char) -> (g: Game)
        ensures
            g@ == GameState::opening(word@, fill),
            g@.valid(),
    {
        let target = lowercase(word.as_str());
        Game { word, target, guessed: Vec::new(), guesses: 0, fill }
    }

    /// Begins a game on a word picked at random from `wordlist`.
    ///
    /// Returns `None` exactly when the list is empty.
    pub fn start(wordlist: &Vec<String>, fill: char) -> (r: Option<Game>)
        ensures
            r is None <==> wordlist@.len() == 0,
            r matches Some(g) ==> g@.valid() && exists|i: int|
                0 <= i < wordlist@.len() && g@ == GameState::opening(#[trigger] wordlist@[i]@, fill),
    {
        match pick_word(wordlist) {
            Some(word) => {
                proof {
                    let i = choose|i: int| 0 <= i < wordlist@.len() && wordlist@[i] == word;
                    assert(wordlist@[i]@ == word@);
                }
                Some(Game::new(word, fill))
            },
            None => None,
        }
    }

    /// Records one character entered by the player and returns the game
    /// that follows.
    pub fn guess(self, input: char) -> (next: Game)
        ensures
            next@ == self@.after_guess(input),
            next@.valid(),
    {
        proof {
            use_type_invariant(&self);
        }
        let c = input.to_ascii_lowercase();
        if contains_char(&self.guessed, c) {
            self
        } else {
            let mut guessed = self.guessed;
            guessed.push(c);
            proof {
                lemma_guess_keeps_valid(self@, input);
                // The counter is one less than a length that fits in `usize`.
                assert(self.guesses + 1 == guessed.len());
            }
            Game {
                word: self.word,
                target: self.target,
                guessed,
                guesses: self.guesses + 1,
                fill: self.fill,
            }
        }
    }

    /// The masked target as the player sees it.
    pub fn revealed(&self) -> (r: String)
        ensures
            r@ == self@.display(),
    {
        mask_word(self.target.as_str(), &self.guessed, self.fill)
    }

    /// Whether the game is won: the display shows the whole target.
    pub fn is_won(&self) -> (r: bool)
        ensures
            r == self@.won(),
    {
        let shown = self.revealed();
        shown == self.target
    }

    /// The number of distinct characters of the word as it was listed,
    /// upper and lower case told apart.
    pub fn optimal_guesses(&self) -> (n: usize)
        ensures
            n == self@.word.to_set().len(),
    {
        optimal_guesses(self.word.as_str())
    }

    /// The guessed characters as a comma-separated list, in their order.
    pub fn guessed_list(&self) -> (r: String)
        ensures
            r@ == listed(self@.guessed),
    {
        list_chars(&self.guessed)
    }

    /// Everything to display for the current state, and with it the
    /// decision whether the game is over: the outcome is there exactly when
    /// the game is won.
    pub fn render(&self) -> (s: Screen)
        ensures
            self@.valid(),
            s.revealed@ == self@.display(),
            s.guessed@ == listed(self@.guessed),
            s.guesses == self@.guesses,
            s.outcome is Some <==> self@.won(),
            s.outcome matches Some(o) ==> {
                &&& o.word@ == self@.word
                &&& o.guesses == self@.guesses
                &&& o.optimal == self@.word.to_set().len()
            },
    {
        proof {
            use_type_invariant(self);
        }
        let revealed = self.revealed();
        let outcome = if revealed == self.target {
            Some(
                Outcome {
                    word: self.word.clone(),
                    guesses: self.guesses,
                    optimal: self.optimal_guesses(),
                },
            )
        } else {
            None
        };
        Screen { revealed, guessed: self.guessed_list(), guesses: self.guesses, outcome }
    }

    /// The target word as it was listed.
    pub fn word(&self) -> (r: &str)
        ensures
            r@ == self@.word,
    {
        self.word.as_str()
    }

    /// The lowercase form of the target word.
    pub fn target(&self) -> (r: &str)
        ensures
            r@ == self@.target,
            r@ == lowercased(self@.word),
    {
        proof {
            use_type_invariant(self);
        }
        self.target.as_str()
    }

    /// The characters guessed so far, in the order in which they came. No
    /// character occurs twice.
    pub fn guessed(&self) -> (r: &Vec<char>)
        ensures
            r@ == self@.guessed,
            r@.no_duplicates(),
    {
        proof {
            use_type_invariant(self);
        }
        &self.guessed
    }

    /// The number of guesses that counted, which is the number of guessed
    /// characters.
    pub fn guesses(&self) -> (n: usize)
        ensures
            n == self@.guesses,
            n == self@.guessed.len(),
    {
        proof {
            use_type_invariant(self);
        }
        self.guesses
    }

    /// The character shown in place of a letter not yet guessed.
    pub fn fill(&self) -> (c: char)
        ensures
            c == self@.fill,
    {
        self.fill
    }
}

} // verus!
