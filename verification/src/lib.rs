//! A word-guessing game: the rules of the game as a verified state machine.
//!
//! A target word is masked letter by letter; the player names characters one
//! at a time and the mask lifts wherever a named letter occurs. Terminal
//! handling and file access live outside this crate; everything here works on
//! plain values.

pub mod alphabet;
pub mod distinct;
pub mod game;
pub mod laws;
pub mod mask;
pub mod pick;
pub mod strings;
