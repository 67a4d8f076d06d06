use rand::Rng;
use vstd::prelude::*;

verus! {

/// Relies on rand's `thread_rng().gen_range(0..n)`: an index below `n`,
/// drawn at random. It panics on an empty range, hence `n > 0`.
#[verifier::external_body]
fn random_index(n: usize) -> (r: usize)
    requires
        n > 0,
    ensures
        r < n,
{
    rand::thread_rng().gen_range(0..n)
}

/// One of `words`, drawn at random.
pub fn pick_random_word(words: &[String]) -> (r: String)
    requires
        words@.len() > 0,
    ensures
        exists|i: int| 0 <= i < words@.len() && r@ == words@[i]@,
{
    let i = random_index(words.len());
    words[i].clone()
}

} // verus!
