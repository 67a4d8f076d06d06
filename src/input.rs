use vstd::prelude::*;

use crate::word::fold;
use crate::word::fold_letter;

verus! {

/// What `str::trim` leaves of a text.
pub uninterp spec fn trimmed(s: Seq<char>) -> Seq<char>;

/// Whether a character has the Unicode `Alphabetic` property.
pub uninterp spec fn alphabetic(c: char) -> bool;

/// Relies on `str::trim`: the text without its leading and trailing white space.
#[verifier::external_body]
fn trim(s: &str) -> (r: &str)
    ensures
        r@ == trimmed(s@),
{
    s.trim()
}

/// Relies on `char::is_alphabetic`: whether the character is alphabetic.
#[verifier::external_body]
fn is_alphabetic(c: char) -> (r: bool)
    ensures
        r == alphabetic(c),
{
    c.is_alphabetic()
}

/// Why a line of input is not a guess.
#[derive(Clone, Copy, Debug, PartialEq, Eq, Structural)]
pub enum GuessError {
    /// The line does not hold exactly one character.
    NotSingle,
    /// The one character is not alphabetic.
    NotAlphabetic,
}

/// A word list the player can choose.
#[derive(Clone, Copy, Debug, PartialEq, Eq, Structural)]
pub enum Category {
    Vegetables,
    Fruits,
    Animals,
    Countries,
}

/// The guess that a trimmed line stands for: its one character, folded.
pub open spec fn guess_rule(t: Seq<char>) -> Result<char, GuessError> {
    if t.len() != 1 {
        Err(GuessError::NotSingle)
    } else if !alphabetic(t[0]) {
        Err(GuessError::NotAlphabetic)
    } else {
        Ok(fold(t[0]))
    }
}

/// The category that a trimmed menu answer picks: `1` to `4`.
pub open spec fn category_rule(t: Seq<char>) -> Option<Category> {
    if t.len() != 1 {
        None
    } else if t[0] == '1' {
        Some(Category::Vegetables)
    } else if t[0] == '2' {
        Some(Category::Fruits)
    } else if t[0] == '3' {
        Some(Category::Animals)
    } else if t[0] == '4' {
        Some(Category::Countries)
    } else {
        None
    }
}

/// The answer that a trimmed reply to "play again?" gives: `1` yes, `2` no.
pub open spec fn replay_rule(t: Seq<char>) -> Option<bool> {
    if t.len() != 1 {
        None
    } else if t[0] == '1' {
        Some(true)
    } else if t[0] == '2' {
        Some(false)
    } else {
        None
    }
}

/// The single character of `t`, if it holds exactly one.
fn single_char(t: &str) -> (r: Option<char>)
    ensures
        r == (if t@.len() == 1 {
            Some(t@[0])
        } else {
            None
        }),
{
    if t.unicode_len() == 1 {
        Some(t.get_char(0))
    } else {
        None
    }
}

/// Reads a guess from an already trimmed line.
pub fn guess_from_trimmed(t: &str) -> (r: Result<char, GuessError>)
    ensures
        r == guess_rule(t@),
{
    match single_char(t) {
        None => Err(GuessError::NotSingle),
        Some(c) => {
            if !is_alphabetic(c) {
                Err(GuessError::NotAlphabetic)
            } else {
                Ok(fold_letter(c))
            }
        },
    }
}

/// Reads a guess from a line as typed: white space around it is ignored.
pub fn parse_guess(line: &str) -> (r: Result<char, GuessError>)
    ensures
        r == guess_rule(trimmed(line@)),
{
    guess_from_trimmed(trim(line))
}

/// Reads a category choice from an already trimmed line.
pub fn category_from_trimmed(t: &str) -> (r: Option<Category>)
    ensures
        r == category_rule(t@),
{
    match single_char(t) {
        Some('1') => Some(Category::Vegetables),
        Some('2') => Some(Category::Fruits),
        Some('3') => Some(Category::Animals),
        Some('4') => Some(Category::Countries),
        _ => None,
    }
}

/// Reads a category choice from a line as typed.
pub fn parse_category(line: &str) -> (r: Option<Category>)
    ensures
        r == category_rule(trimmed(line@)),
{
    category_from_trimmed(trim(line))
}

/// Reads a "play again?" answer from an already trimmed line.
pub fn replay_from_trimmed(t: &str) -> (r: Option<bool>)
    ensures
        r == replay_rule(t@),
{
    match single_char(t) {
        Some('1') => Some(true),
        Some('2') => Some(false),
        _ => None,
    }
}

/// Reads a "play again?" answer from a line as typed.
pub fn parse_replay(line: &str) -> (r: Option<bool>)
    ensures
        r == replay_rule(trimmed(line@)),
{
    replay_from_trimmed(trim(line))
}

impl Category {
    /// The file that holds this category's words.
    pub fn file_path(&self) -> (r: &'static str)
        ensures
            *self == Category::Vegetables ==> r@ == "src/vegetables.txt"@,
            *self == Category::Fruits ==> r@ == "src/fruits.txt"@,
            *self == Category::Animals ==> r@ == "src/animals.txt"@,
            *self == Category::Countries ==> r@ == "src/countries.txt"@,
    {
        match self {
            Category::Vegetables => "src/vegetables.txt",
            Category::Fruits => "src/fruits.txt",
            Category::Animals => "src/animals.txt",
            Category::Countries => "src/countries.txt",
        }
    }
}

} // verus!
