use hangman::figure::{figure, FIGURE_0, FIGURE_6};
use hangman::game::{GuessOutcome, Hangman, RoundStatus, MAX_INCORRECT};
use hangman::input::{
    guess_from_trimmed, parse_category, parse_guess, parse_replay, Category, GuessError,
};
use hangman::pick::pick_random_word;
use hangman::word::{fold_letter, Word, PLACEHOLDER};

#[test]
fn new_word_is_all_placeholders() {
    let w = Word::new(String::from("apple"));
    assert_eq!(w.display(), "_____");
    assert!(!w.is_guessed());
    assert_eq!(w.text(), "apple");
}

#[test]
fn new_word_folds_capitals() {
    let w = Word::new(String::from("Peru"));
    assert_eq!(w.text(), "peru");
}

#[test]
fn empty_word_is_complete() {
    let w = Word::new(String::new());
    assert_eq!(w.display(), "");
    assert!(w.is_guessed());
}

#[test]
fn check_guess_reveals_every_occurrence() {
    let mut w = Word::new(String::from("banana"));
    assert!(w.check_guess('a'));
    assert_eq!(w.display(), "_a_a_a");
    assert!(w.check_guess('n'));
    assert_eq!(w.display(), "_anana");
}

#[test]
fn check_guess_missing_letter_changes_nothing() {
    let mut w = Word::new(String::from("banana"));
    assert!(w.check_guess('b'));
    assert!(!w.check_guess('z'));
    assert_eq!(w.display(), "b_____");
}

#[test]
fn check_guess_is_idempotent() {
    let mut w = Word::new(String::from("kiwi"));
    assert!(w.check_guess('i'));
    assert!(w.check_guess('i'));
    assert_eq!(w.display(), "_i_i");
}

#[test]
fn check_guess_ignores_case() {
    let mut w = Word::new(String::from("Kiwi"));
    assert!(w.check_guess('K'));
    assert_eq!(w.display(), "k___");
    assert!(w.check_guess('k'));
}

#[test]
fn kiwi_round() {
    let mut h = Hangman::new(String::from("kiwi"));
    assert_eq!(h.submit_guess('i'), GuessOutcome::Correct);
    assert_eq!(h.display_word(), "_i_i");
    assert_eq!(h.submit_guess('k'), GuessOutcome::Correct);
    assert_eq!(h.display_word(), "ki_i");
    assert_eq!(h.submit_guess('z'), GuessOutcome::Incorrect);
    assert_eq!(h.display_word(), "ki_i");
    assert_eq!(h.incorrect_guesses(), 1);
    assert_eq!(h.submit_guess('i'), GuessOutcome::AlreadyGuessed);
    assert_eq!(h.incorrect_guesses(), 1);
    assert_eq!(h.guessed_letters(), "ikz");
    assert_eq!(h.status(), RoundStatus::InProgress);
    assert_eq!(h.submit_guess('w'), GuessOutcome::Correct);
    assert!(h.is_won());
    assert_eq!(h.status(), RoundStatus::Won);
}

#[test]
fn all_letters_in_any_order_win_without_misses() {
    for order in ["lemon", "nomel", "olmen"] {
        let mut h = Hangman::new(String::from("lemon"));
        for c in order.chars() {
            assert_eq!(h.submit_guess(c), GuessOutcome::Correct);
        }
        assert!(h.is_won());
        assert_eq!(h.incorrect_guesses(), 0);
    }
}

#[test]
fn repeated_letter_is_already_guessed() {
    let mut h = Hangman::new(String::from("pear"));
    assert_eq!(h.submit_guess('x'), GuessOutcome::Incorrect);
    assert_eq!(h.incorrect_guesses(), 1);
    assert_eq!(h.submit_guess('x'), GuessOutcome::AlreadyGuessed);
    assert_eq!(h.submit_guess('X'), GuessOutcome::AlreadyGuessed);
    assert_eq!(h.incorrect_guesses(), 1);
    assert_eq!(h.submit_guess('p'), GuessOutcome::Correct);
    assert_eq!(h.submit_guess('p'), GuessOutcome::AlreadyGuessed);
    assert_eq!(h.incorrect_guesses(), 1);
}

#[test]
fn six_distinct_misses_lose() {
    for order in ["qxzjvy", "yvjzxq"] {
        let mut h = Hangman::new(String::from("kiwi"));
        for (n, c) in order.chars().enumerate() {
            assert!(!h.is_lost());
            assert_eq!(h.lives_left(), MAX_INCORRECT - n);
            assert_eq!(h.submit_guess(c), GuessOutcome::Incorrect);
        }
        assert!(h.is_lost());
        assert_eq!(h.lives_left(), 0);
        assert_eq!(h.status(), RoundStatus::Lost);
    }
}

#[test]
fn misses_between_hits_still_lose() {
    let mut h = Hangman::new(String::from("kiwi"));
    let guesses = ['q', 'k', 'x', 'x', 'z', 'i', 'j', 'v', 'Q'];
    for c in guesses {
        h.submit_guess(c);
    }
    assert_eq!(h.incorrect_guesses(), 5);
    assert!(!h.is_lost());
    assert_eq!(h.submit_guess('y'), GuessOutcome::Incorrect);
    assert!(h.is_lost());
}

#[test]
fn loss_is_reported_before_win() {
    let mut h = Hangman::new(String::from("ox"));
    for c in ['a', 'b', 'c', 'd', 'e', 'f'] {
        h.submit_guess(c);
    }
    assert_eq!(h.submit_guess('o'), GuessOutcome::Correct);
    assert_eq!(h.submit_guess('x'), GuessOutcome::Correct);
    assert!(h.is_won());
    assert_eq!(h.status(), RoundStatus::Lost);
}

#[test]
fn render_matches_secret_or_placeholder() {
    let mut h = Hangman::new(String::from("cherry"));
    h.submit_guess('r');
    h.submit_guess('c');
    let shown: Vec<char> = h.display_word().chars().collect();
    let secret: Vec<char> = h.word_text().chars().collect();
    assert_eq!(shown.len(), secret.len());
    for i in 0..shown.len() {
        assert!(shown[i] == PLACEHOLDER || shown[i] == secret[i]);
    }
    assert_eq!(h.display_word(), "c__rr_");
}

#[test]
fn fold_letter_lowers_ascii_capitals_only() {
    assert_eq!(fold_letter('A'), 'a');
    assert_eq!(fold_letter('Z'), 'z');
    assert_eq!(fold_letter('q'), 'q');
    assert_eq!(fold_letter('É'), 'É');
    assert_eq!(fold_letter('_'), '_');
}

#[test]
fn guess_parsing() {
    assert_eq!(parse_guess("  a \n"), Ok('a'));
    assert_eq!(parse_guess("B\n"), Ok('b'));
    assert_eq!(parse_guess("ab\n"), Err(GuessError::NotSingle));
    assert_eq!(parse_guess("   \n"), Err(GuessError::NotSingle));
    assert_eq!(parse_guess("7\n"), Err(GuessError::NotAlphabetic));
    assert_eq!(parse_guess("é"), Ok('é'));
    assert_eq!(guess_from_trimmed(" a"), Err(GuessError::NotSingle));
    assert_eq!(guess_from_trimmed("?"), Err(GuessError::NotAlphabetic));
}

#[test]
fn category_parsing() {
    assert_eq!(parse_category("1\n"), Some(Category::Vegetables));
    assert_eq!(parse_category(" 2 "), Some(Category::Fruits));
    assert_eq!(parse_category("3"), Some(Category::Animals));
    assert_eq!(parse_category("4\r\n"), Some(Category::Countries));
    assert_eq!(parse_category("5"), None);
    assert_eq!(parse_category("12"), None);
    assert_eq!(Category::Fruits.file_path(), "src/fruits.txt");
    assert_eq!(Category::Countries.file_path(), "src/countries.txt");
}

#[test]
fn replay_parsing() {
    assert_eq!(parse_replay("1\n"), Some(true));
    assert_eq!(parse_replay(" 2"), Some(false));
    assert_eq!(parse_replay("yes"), None);
    assert_eq!(parse_replay(""), None);
}

#[test]
fn figures_follow_misses() {
    assert_eq!(figure(0), FIGURE_0);
    assert_eq!(figure(6), FIGURE_6);
    assert_eq!(figure(7), "");
    let mut h = Hangman::new(String::from("fig"));
    assert_eq!(h.figure(), FIGURE_0);
    for c in ['a', 'b', 'c', 'd', 'e', 'h'] {
        h.submit_guess(c);
    }
    assert_eq!(h.figure(), FIGURE_6);
    assert!(FIGURE_6.contains("/ \\"));
}

#[test]
fn random_pick_is_one_of_the_words() {
    let words = vec![String::from("carrot"), String::from("leek"), String::from("kale")];
    for _ in 0..20 {
        let w = pick_random_word(&words);
        assert!(words.contains(&w));
    }
    let one = vec![String::from("onion")];
    assert_eq!(pick_random_word(&one), "onion");
}
