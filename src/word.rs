use vstd::prelude::*;

use crate::text::chars_to_string;

verus! {

/// The symbol shown in place of a letter that has not been guessed yet.
pub const PLACEHOLDER: char = '_';

/// Case normalisation shared by secret words and guesses: ASCII capitals
/// become lower case, every other character stays as it is.
pub open spec fn fold(c: char) -> char {
    if 'A' <= c && c <= 'Z' {
        ((c as u32 + 32) as u8) as char
    } else {
        c
    }
}

/// A text with every character folded.
pub open spec fn fold_seq(s: Seq<char>) -> Seq<char> {
    s.map_values(|c: char| fold(c))
}

/// A display buffer of `n` placeholders.
pub open spec fn hidden(n: nat) -> Seq<char> {
    Seq::new(n, |i: int| PLACEHOLDER)
}

/// The display buffer after `c` is revealed: every position of `secret` that
/// holds `c` shows it, the others keep what they showed.
pub open spec fn uncover(secret: Seq<char>, revealed: Seq<char>, c: char) -> Seq<char> {
    Seq::new(revealed.len(), |i: int| if secret[i] == c { secret[i] } else { revealed[i] })
}

/// What a word is: its secret letters and the buffer shown to the player.
pub struct WordModel {
    pub secret: Seq<char>,
    pub revealed: Seq<char>,
}

impl WordModel {
    /// The buffer is as long as the secret, and each position shows either
    /// the placeholder or the secret letter there.
    pub open spec fn wf(self) -> bool {
        &&& self.revealed.len() == self.secret.len()
        &&& forall|i: int|
            0 <= i < self.revealed.len() ==> (#[trigger] self.revealed[i] == PLACEHOLDER
                || self.revealed[i] == self.secret[i])
    }

    /// No placeholder is left in the buffer.
    pub open spec fn complete(self) -> bool {
        !self.revealed.contains(PLACEHOLDER)
    }
}

/// Folds one character, as `fold` states.
pub fn fold_letter(c: char) -> (r: char)
    ensures
        r == fold(c),
{
    if 'A' <= c && c <= 'Z' {
        ((c as u32 + 32) as u8) as char
    } else {
        c
    }
}

/// A secret word and the part of it that the player has uncovered.
pub struct Word {
    word_text: Vec<char>,
    displayed_text: Vec<char>,
}

impl View for Word {
    type V = WordModel;

    closed spec fn view(&self) -> WordModel {
        WordModel { secret: self.word_text@, revealed: self.displayed_text@ }
    }
}

impl Word {
    #[verifier::type_invariant]
    closed spec fn inv(&self) -> bool {
        self@.wf()
    }

    /// A word whose secret is `word_text` folded, with every letter hidden.
    /// Words are meant to hold letters: a placeholder character in the text
    /// would never count as revealed.
    pub fn new(word_text: String) -> (w: Word)
        ensures
            w@.secret == fold_seq(word_text@),
            w@.revealed == hidden(word_text@.len()),
    {
        let text = word_text.as_str();
        let n = text.unicode_len();
        let mut secret: Vec<char> = Vec::new();
        let mut shown: Vec<char> = Vec::new();
        let mut i: usize = 0;
        while i < n
            invariant
                n == text@.len(),
                i <= n,
                secret@ == fold_seq(text@.subrange(0, i as int)),
                shown@ == hidden(i as nat),
            decreases n - i,
        {
            let c = text.get_char(i);
            secret.push(fold_letter(c));
            shown.push(PLACEHOLDER);
            i = i + 1;
            assert(text@.subrange(0, i as int) == text@.subrange(0, i - 1).push(c));
            assert(secret@ =~= fold_seq(text@.subrange(0, i as int)));
            assert(shown@ =~= hidden(i as nat));
        }
        assert(text@.subrange(0, n as int) == text@);
        Word { word_text: secret, displayed_text: shown }
    }

    /// The buffer shown to the player, as text.
    pub fn display(&self) -> (r: String)
        ensures
            r@ == self@.revealed,
            r@.len() == self@.secret.len(),
            forall|i: int|
                0 <= i < r@.len() ==> (#[trigger] r@[i] == PLACEHOLDER || r@[i] == self@.secret[i]),
    {
        proof {
            use_type_invariant(self);
        }
        chars_to_string(&self.displayed_text)
    }

    /// The secret word, folded, as text.
    pub fn text(&self) -> (r: String)
        ensures
            r@ == self@.secret,
    {
        chars_to_string(&self.word_text)
    }

    /// Reveals every position whose secret letter equals `guess` folded, and
    /// tells whether there was one.
    pub fn check_guess(&mut self, guess: char) -> (found: bool)
        ensures
            final(self)@.secret == old(self)@.secret,
            final(self)@.revealed == uncover(old(self)@.secret, old(self)@.revealed, fold(guess)),
            found == old(self)@.secret.contains(fold(guess)),
            forall|i: int|
                0 <= i < old(self)@.secret.len() && old(self)@.secret[i] == fold(guess)
                    ==> #[trigger] final(self)@.revealed[i] == old(self)@.secret[i],
            !old(self)@.secret.contains(fold(guess)) ==> final(self)@ == old(self)@,
    {
        proof {
            use_type_invariant(&*self);
        }
        let letter = fold_letter(guess);
        let ghost secret = self.word_text@;
        let ghost before = self.displayed_text@;
        let n = self.word_text.len();
        let mut shown: Vec<char> = Vec::new();
        let mut found = false;
        let mut i: usize = 0;
        while i < n
            invariant
                n == secret.len(),
                n == before.len(),
                i <= n,
                self.word_text@ == secret,
                self.displayed_text@ == before,
                shown@ == uncover(secret, before, letter).subrange(0, i as int),
                found == exists|j: int| 0 <= j < i && #[trigger] secret[j] == letter,
            decreases n - i,
        {
            if self.word_text[i] == letter {
                shown.push(letter);
                found = true;
            } else {
                shown.push(self.displayed_text[i]);
            }
            i = i + 1;
            assert(shown@ =~= uncover(secret, before, letter).subrange(0, i as int));
        }
        assert(shown@ =~= uncover(secret, before, letter));
        proof {
            if found {
                let j = choose|j: int| 0 <= j < n && #[trigger] secret[j] == letter;
                assert(secret[j] == letter);
            }
            if !found {
                assert(shown@ =~= before);
            }
        }
        self.displayed_text = shown;
        found
    }

    /// True when no placeholder is left in the buffer.
    pub fn is_guessed(&self) -> (r: bool)
        ensures
            r == self@.complete(),
    {
        let n = self.displayed_text.len();
        let mut i: usize = 0;
        while i < n
            invariant
                n == self.displayed_text@.len(),
                i <= n,
                forall|j: int| 0 <= j < i ==> #[trigger] self.displayed_text@[j] != PLACEHOLDER,
            decreases n - i,
        {
            if self.displayed_text[i] == PLACEHOLDER {
                assert(self@.revealed[i as int] == PLACEHOLDER);
                return false;
            }
            i = i + 1;
        }
        true
    }
}

} // verus!
