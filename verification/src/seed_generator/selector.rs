//! Decides whether a seed gets mutated when its turn comes.

use vstd::prelude::*;
use crate::config::SKIP_TO_NEW_PROB;
use crate::input_seed::InputSeed;
use crate::random::{gen_range, thread_rng};

verus! {

/// Whether a seed is taken, given a draw between 0 and 99: a seed that was
/// fuzzed before or is not favored is passed by when the draw is below
/// `SKIP_TO_NEW_PROB`; every other seed is taken, whatever the draw.
pub open spec fn selects(seed: InputSeed, probability: u64) -> bool {
    !((seed.was_fuzzed || !seed.is_favored) && probability < SKIP_TO_NEW_PROB)
}

/// Whether `selected` is what some draw between 0 and 99 decides for the
/// seed.
pub open spec fn decided_by_a_draw(seed: InputSeed, selected: bool) -> bool {
    exists|probability: u64| probability < 100 && selected == #[trigger] selects(seed, probability)
}

#[derive(Debug)]
pub struct Selector {}

impl Selector {
    /// Decides `selects` for a draw that the caller made.
    pub fn decide(&self, seed: &InputSeed, probability: u64) -> (selected: bool)
        ensures
            selected == selects(*seed, probability),
    {
        if (seed.was_fuzzed || !seed.is_favored) && probability < SKIP_TO_NEW_PROB as u64 {
            return false;
        }
        true
    }

    /// Draws a number between 0 and 99 and decides by it as `selects` says.
    /// A favored seed that was never fuzzed is always taken; any other seed
    /// is taken only on a draw of `SKIP_TO_NEW_PROB` or more.
    pub fn whether_select(&self, seed: &InputSeed) -> (selected: bool)
        ensures
            decided_by_a_draw(*seed, selected),
            seed.is_fresh() ==> selected,
    {
        let mut rng = thread_rng();
        let probability = gen_range(&mut rng, 0, 100);
        let selected = self.decide(seed, probability);
        assert(probability < 100 && selected == selects(*seed, probability));
        selected
    }
}

} // verus!
