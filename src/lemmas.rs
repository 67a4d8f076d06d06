use vstd::prelude::*;

use crate::game::{initial, outcome, play, submit, GameModel, GuessOutcome, MAX_INCORRECT};
use crate::word::{fold, fold_seq, PLACEHOLDER};

verus! {

/// The folded letters among `guesses` that stand nowhere in `text` folded.
pub open spec fn missed_letters(text: Seq<char>, guesses: Seq<char>) -> Set<char> {
    fold_seq(guesses).to_set().filter(|x: char| !fold_seq(text).contains(x))
}

/// Folding twice is folding once.
pub proof fn lemma_fold_idempotent(c: char)
    ensures
        fold(fold(c)) == fold(c),
        c != PLACEHOLDER ==> fold(c) != PLACEHOLDER,
{
}

/// In every round played from a fresh start on `text`: the secret is `text`
/// folded; a position shows its letter exactly when that letter has been
/// tried, and the placeholder otherwise; the letters tried are those of
/// `guesses` folded, each once; and the miss count is the number of distinct
/// folded letters of `guesses` missing from the word.
pub proof fn lemma_round_invariant(text: Seq<char>, guesses: Seq<char>)
    ensures
        ({
            let m = play(initial(text), guesses);
            &&& m.word.secret == fold_seq(text)
            &&& m.word.revealed.len() == text.len()
            &&& forall|i: int|
                0 <= i < text.len() ==> #[trigger] m.word.revealed[i] == if m.guessed.contains(
                    m.word.secret[i],
                ) {
                    m.word.secret[i]
                } else {
                    PLACEHOLDER
                }
            &&& m.guessed.to_set() == fold_seq(guesses).to_set()
            &&& m.guessed.no_duplicates()
            &&& m.incorrect == missed_letters(text, guesses).len()
        }),
    decreases guesses.len(),
{
    broadcast use vstd::seq_lib::seq_to_set_is_finite;
    broadcast use vstd::set::axiom_set_insert_len;

    let secret = fold_seq(text);
    let p = |x: char| !fold_seq(text).contains(x);
    if guesses.len() == 0 {
        let m = initial(text);
        assert(fold_seq(guesses) =~= Seq::<char>::empty());
        assert(m.guessed.to_set() =~= Set::<char>::empty());
        assert(fold_seq(guesses).to_set() =~= Set::<char>::empty());
        assert(missed_letters(text, guesses) =~= Set::<char>::empty());
    } else {
        let g = guesses.drop_last();
        let c = guesses.last();
        let f = fold(c);
        lemma_round_invariant(text, g);
        let prev = play(initial(text), g);
        let m = play(initial(text), guesses);
        assert(m == submit(prev, c));
        assert(fold_seq(guesses) =~= fold_seq(g).push(f));
        let s = fold_seq(g).to_set();
        fold_seq(g).lemma_push_to_set_commute(f);
        assert(fold_seq(guesses).to_set() == s.insert(f));
        if prev.guessed.contains(f) {
            assert(prev.guessed.to_set().contains(f));
            assert(s.insert(f) =~= s);
        } else {
            prev.guessed.lemma_push_to_set_commute(f);
            assert(m.guessed.to_set() == s.insert(f));
            assert(m.guessed.no_duplicates()) by {
                assert forall|i: int, j: int|
                    0 <= i < m.guessed.len() && 0 <= j < m.guessed.len() && i != j implies
                    m.guessed[i] != m.guessed[j] by {
                    if i == prev.guessed.len() as int {
                        assert(prev.guessed[j] == m.guessed[j]);
                    } else if j == prev.guessed.len() as int {
                        assert(prev.guessed[i] == m.guessed[i]);
                    }
                }
            }
            assert forall|i: int| 0 <= i < text.len() implies #[trigger] m.word.revealed[i]
                == if m.guessed.contains(m.word.secret[i]) {
                m.word.secret[i]
            } else {
                PLACEHOLDER
            } by {
                let x = secret[i];
                if x == f {
                    assert(m.guessed[prev.guessed.len() as int] == f);
                } else if prev.guessed.contains(x) {
                    let k = choose|k: int| 0 <= k < prev.guessed.len() && prev.guessed[k] == x;
                    assert(m.guessed[k] == x);
                } else {
                    assert(!m.guessed.contains(x)) by {
                        if m.guessed.contains(x) {
                            let k = choose|k: int| 0 <= k < m.guessed.len() && m.guessed[k] == x;
                            assert(prev.guessed[k] == x);
                        }
                    }
                }
            }
            let before = s.filter(p);
            assert(!s.contains(f)) by {
                assert(prev.guessed.to_set() == s);
            }
            if secret.contains(f) {
                assert(s.insert(f).filter(p) =~= before);
            } else {
                assert(s.insert(f).filter(p) =~= before.insert(f));
                s.lemma_len_filter(p);
            }
        }
    }
}

/// Submitting a letter not tried before reports `Correct` or `Incorrect`;
/// submitting the same letter again right after reports `AlreadyGuessed` and
/// leaves the round as it was, its miss count included.
pub proof fn lemma_repeat_guess(m: GameModel, c: char)
    requires
        !m.guessed.contains(fold(c)),
    ensures
        outcome(m, c) == GuessOutcome::Correct || outcome(m, c) == GuessOutcome::Incorrect,
        outcome(submit(m, c), c) == GuessOutcome::AlreadyGuessed,
        submit(submit(m, c), c) == submit(m, c),
        submit(submit(m, c), c).incorrect == submit(m, c).incorrect,
{
    assert(submit(m, c).guessed[m.guessed.len() as int] == fold(c));
}

/// Trying each distinct letter of a word once, in any order, wins the round
/// without a single miss.
pub proof fn lemma_all_letters_win(text: Seq<char>, letters: Seq<char>)
    requires
        !text.contains(PLACEHOLDER),
        letters.no_duplicates(),
        letters.to_set() == fold_seq(text).to_set(),
    ensures
        play(initial(text), letters).won(),
        play(initial(text), letters).incorrect == 0,
{
    broadcast use vstd::seq_lib::seq_to_set_is_finite;

    lemma_round_invariant(text, letters);
    let m = play(initial(text), letters);
    let secret = fold_seq(text);
    assert forall|i: int| 0 <= i < letters.len() implies #[trigger] fold(letters[i])
        == letters[i] by {
        assert(letters.to_set().contains(letters[i]));
        let j = choose|j: int| 0 <= j < secret.len() && secret[j] == letters[i];
        lemma_fold_idempotent(text[j]);
    }
    assert(fold_seq(letters) =~= letters);
    assert forall|i: int| 0 <= i < text.len() implies #[trigger] m.word.revealed[i]
        == secret[i] by {
        assert(secret.to_set().contains(secret[i]));
        assert(m.guessed.to_set().contains(secret[i]));
    }
    assert(!m.word.revealed.contains(PLACEHOLDER)) by {
        if m.word.revealed.contains(PLACEHOLDER) {
            let i = choose|i: int| 0 <= i < m.word.revealed.len() && m.word.revealed[i] == PLACEHOLDER;
            assert(m.word.revealed[i] == secret[i]);
            lemma_fold_idempotent(text[i]);
            assert(text[i] != PLACEHOLDER);
        }
    }
    assert(missed_letters(text, letters) =~= Set::<char>::empty()) by {
        assert forall|x: char| !#[trigger] missed_letters(text, letters).contains(x) by {
            if letters.to_set().contains(x) {
                assert(secret.to_set().contains(x));
            }
        }
    }
}

/// The miss count of a round from a fresh start is the number of distinct
/// folded letters tried that stand nowhere in the word, whatever the order of
/// the guesses; so six such letters lose the round.
pub proof fn lemma_six_misses_lose(text: Seq<char>, guesses: Seq<char>)
    requires
        missed_letters(text, guesses).len() == MAX_INCORRECT,
    ensures
        play(initial(text), guesses).incorrect == MAX_INCORRECT,
        play(initial(text), guesses).lost(),
{
    lemma_round_invariant(text, guesses);
}

} // verus!
