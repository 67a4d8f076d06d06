use vstd::prelude::*;

verus! {

/// The gallows after no misses.
pub const FIGURE_0: &'static str = "
              +---+
              |   |
                  |
                  |
                  |
                  |
            =========\n";

/// The gallows after one miss.
pub const FIGURE_1: &'static str = "
              +---+
              |   |
              O   |
                  |
                  |
                  |
            =========\n";

/// The gallows after two misses.
pub const FIGURE_2: &'static str = "
              +---+
              |   |
              O   |
              |   |
                  |
                  |
            =========\n";

/// The gallows after three misses.
pub const FIGURE_3: &'static str = "
              +---+
              |   |
              O   |
             /|   |
                  |
                  |
            =========\n";

/// The gallows after four misses.
pub const FIGURE_4: &'static str = "
              +---+
              |   |
              O   |
             /|\\  |
                  |
                  |
            =========\n";

/// The gallows after five misses.
pub const FIGURE_5: &'static str = "
              +---+
              |   |
              O   |
             /|\\  |
             /    |
                  |
            =========\n";

/// The gallows after six misses.
pub const FIGURE_6: &'static str = "
              +---+
              |   |
              O   |
             /|\\  |
             / \\  |
                  |
            =========\n";

/// The drawing for a number of misses; past the last stage there is none.
pub open spec fn drawing(misses: int) -> Seq<char> {
    if misses == 0 {
        FIGURE_0@
    } else if misses == 1 {
        FIGURE_1@
    } else if misses == 2 {
        FIGURE_2@
    } else if misses == 3 {
        FIGURE_3@
    } else if misses == 4 {
        FIGURE_4@
    } else if misses == 5 {
        FIGURE_5@
    } else if misses == 6 {
        FIGURE_6@
    } else {
        ""@
    }
}

/// The drawing for `misses`, as `drawing` states.
pub fn figure(misses: usize) -> (r: &'static str)
    ensures
        r@ == drawing(misses as int),
{
    match misses {
        0 => FIGURE_0,
        1 => FIGURE_1,
        2 => FIGURE_2,
        3 => FIGURE_3,
        4 => FIGURE_4,
        5 => FIGURE_5,
        6 => FIGURE_6,
        _ => "",
    }
}

} // verus!
