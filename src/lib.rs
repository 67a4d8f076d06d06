//! A game of hangman: a secret word, letters guessed one at a time, and a
//! round that ends when the word is uncovered or six guesses have missed.

pub mod figure;
pub mod game;
pub mod input;
pub mod lemmas;
pub mod pick;
pub mod text;
pub mod word;
