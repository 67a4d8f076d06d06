use vstd::prelude::*;

use crate::figure::{drawing, figure};
use crate::text::chars_to_string;
use crate::word::{fold, fold_letter, fold_seq, hidden, uncover, Word, WordModel};

verus! {

/// How many incorrect guesses end a round in a loss.
pub const MAX_INCORRECT: usize = 6;

/// What a submitted letter did.
#[derive(Clone, Copy, Debug, PartialEq, Eq, Structural)]
pub enum GuessOutcome {
    /// The letter had been submitted before; nothing changed.
    AlreadyGuessed,
    /// The letter is in the secret word and has been revealed.
    Correct,
    /// The letter is not in the secret word; one more miss is counted.
    Incorrect,
}

/// Where a round stands after a guess.
#[derive(Clone, Copy, Debug, PartialEq, Eq, Structural)]
pub enum RoundStatus {
    /// Neither end has been reached.
    InProgress,
    /// Every letter is revealed and the miss limit is not reached.
    Won,
    /// The miss limit is reached.
    Lost,
}

/// What a round is: the word, the letters submitted (folded, in the order
/// they came), and the number of those that revealed nothing.
pub struct GameModel {
    pub word: WordModel,
    pub guessed: Seq<char>,
    pub incorrect: nat,
}

impl GameModel {
    /// The miss limit is reached.
    pub open spec fn lost(self) -> bool {
        self.incorrect >= MAX_INCORRECT
    }

    /// Every letter of the word is revealed.
    pub open spec fn won(self) -> bool {
        self.word.complete()
    }

    /// The status a round reports: a loss is looked at before a win.
    pub open spec fn status(self) -> RoundStatus {
        if self.lost() {
            RoundStatus::Lost
        } else if self.won() {
            RoundStatus::Won
        } else {
            RoundStatus::InProgress
        }
    }
}

/// A fresh round on `text`: all hidden, nothing guessed, no miss.
pub open spec fn initial(text: Seq<char>) -> GameModel {
    GameModel {
        word: WordModel { secret: fold_seq(text), revealed: hidden(text.len()) },
        guessed: Seq::empty(),
        incorrect: 0,
    }
}

/// What submitting `c` in round `m` reports.
pub open spec fn outcome(m: GameModel, c: char) -> GuessOutcome {
    if m.guessed.contains(fold(c)) {
        GuessOutcome::AlreadyGuessed
    } else if m.word.secret.contains(fold(c)) {
        GuessOutcome::Correct
    } else {
        GuessOutcome::Incorrect
    }
}

/// The round after `c` is submitted in round `m`.
pub open spec fn submit(m: GameModel, c: char) -> GameModel {
    let f = fold(c);
    if m.guessed.contains(f) {
        m
    } else {
        GameModel {
            word: WordModel {
                secret: m.word.secret,
                revealed: uncover(m.word.secret, m.word.revealed, f),
            },
            guessed: m.guessed.push(f),
            incorrect: if m.word.secret.contains(f) {
                m.incorrect
            } else {
                m.incorrect + 1
            },
        }
    }
}

/// The round after the letters of `letters` are submitted one by one.
pub open spec fn play(m: GameModel, letters: Seq<char>) -> GameModel
    decreases letters.len(),
{
    if letters.len() == 0 {
        m
    } else {
        submit(play(m, letters.drop_last()), letters.last())
    }
}

/// One round of the game: a word, the letters tried so far and the misses.
pub struct Hangman {
    word: Word,
    guessed_letters: Vec<char>,
    incorrect_guesses: usize,
}

impl View for Hangman {
    type V = GameModel;

    closed spec fn view(&self) -> GameModel {
        GameModel {
            word: self.word@,
            guessed: self.guessed_letters@,
            incorrect: self.incorrect_guesses as nat,
        }
    }
}

impl Hangman {
    /// The counter never passes the number of letters tried.
    pub closed spec fn wf(&self) -> bool {
        self.incorrect_guesses <= self.guessed_letters@.len()
    }

    /// A fresh round on `word_text`.
    pub fn new(word_text: String) -> (h: Hangman)
        ensures
            h.wf(),
            h@ == initial(word_text@),
    {
        let word = Word::new(word_text);
        let guessed_letters: Vec<char> = Vec::new();
        let incorrect_guesses: usize = 0;
        Hangman { word, guessed_letters, incorrect_guesses }
    }

    /// Submits `letter`: a repeat changes nothing; a new letter is recorded,
    /// revealed where it stands in the word, and counted as a miss where it
    /// stands nowhere.
    pub fn submit_guess(&mut self, letter: char) -> (r: GuessOutcome)
        requires
            old(self).wf(),
        ensures
            final(self).wf(),
            final(self)@ == submit(old(self)@, letter),
            r == outcome(old(self)@, letter),
    {
        let f = fold_letter(letter);
        let n = self.guessed_letters.len();
        let mut i: usize = 0;
        let mut seen = false;
        while i < n && !seen
            invariant
                n == self.guessed_letters@.len(),
                i <= n,
                seen ==> 0 < i && self.guessed_letters@[i - 1] == f,
                !seen ==> forall|j: int| 0 <= j < i ==> #[trigger] self.guessed_letters@[j] != f,
            decreases n - i,
        {
            seen = self.guessed_letters[i] == f;
            i = i + 1;
        }
        if seen {
            assert(self@.guessed[i - 1] == f);
            return GuessOutcome::AlreadyGuessed;
        }
        self.guessed_letters.push(f);
        let len = self.guessed_letters.len();
        let found = self.word.check_guess(letter);
        if found {
            GuessOutcome::Correct
        } else {
            self.incorrect_guesses = self.incorrect_guesses + 1;
            assert(self.incorrect_guesses <= len);
            GuessOutcome::Incorrect
        }
    }

    /// The miss limit is reached.
    pub fn is_lost(&self) -> (r: bool)
        ensures
            r == self@.lost(),
    {
        self.incorrect_guesses >= MAX_INCORRECT
    }

    /// Every letter of the word is revealed.
    pub fn is_won(&self) -> (r: bool)
        ensures
            r == self@.won(),
    {
        self.word.is_guessed()
    }

    /// Where the round stands: lost, won or still going.
    pub fn status(&self) -> (r: RoundStatus)
        ensures
            r == self@.status(),
    {
        if self.is_lost() {
            RoundStatus::Lost
        } else if self.is_won() {
            RoundStatus::Won
        } else {
            RoundStatus::InProgress
        }
    }

    /// The number of misses so far.
    pub fn incorrect_guesses(&self) -> (r: usize)
        ensures
            r == self@.incorrect,
    {
        self.incorrect_guesses
    }

    /// Misses left before the round is lost.
    pub fn lives_left(&self) -> (r: usize)
        ensures
            r == if self@.lost() {
                0
            } else {
                MAX_INCORRECT - self@.incorrect
            },
    {
        if self.incorrect_guesses >= MAX_INCORRECT {
            0
        } else {
            MAX_INCORRECT - self.incorrect_guesses
        }
    }

    /// The word's display buffer, as text.
    pub fn display_word(&self) -> (r: String)
        ensures
            r@ == self@.word.revealed,
    {
        self.word.display()
    }

    /// The letters tried so far, in the order they came, as text.
    pub fn guessed_letters(&self) -> (r: String)
        ensures
            r@ == self@.guessed,
    {
        chars_to_string(&self.guessed_letters)
    }

    /// The gallows drawn for the misses so far.
    pub fn figure(&self) -> (r: &'static str)
        ensures
            r@ == drawing(self@.incorrect as int),
    {
        figure(self.incorrect_guesses)
    }

    /// The secret word, folded, as text.
    pub fn word_text(&self) -> (r: String)
        ensures
            r@ == self@.word.secret,
    {
        self.word.text()
    }
}

} // verus!
