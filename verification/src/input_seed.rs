//! A fuzzing input together with its scheduling flags.

use vstd::prelude::*;

verus! {

/// What a seed is to the contracts: its two flags and its bytes.
pub ghost struct SeedView {
    pub is_favored: bool,
    pub was_fuzzed: bool,
    pub bytes: Seq<u8>,
}

impl SeedView {
    /// The view of a seed as `InputSeed::new` makes it from `bytes`.
    pub open spec fn fresh(bytes: Seq<u8>) -> SeedView {
        SeedView { is_favored: true, was_fuzzed: false, bytes }
    }
}

/// One entry of the corpus.
///
/// `is_favored` marks a seed the scheduler prefers, `was_fuzzed` one that
/// already served as a mutation base. The bytes are never changed in place:
/// every mutation builds a new buffer.
#[derive(Debug, Clone)]
pub struct InputSeed {
    pub is_favored: bool,
    pub was_fuzzed: bool,
    pub seed_vec: Vec<u8>,
}

impl View for InputSeed {
    type V = SeedView;

    open spec fn view(&self) -> SeedView {
        SeedView {
            is_favored: self.is_favored,
            was_fuzzed: self.was_fuzzed,
            bytes: self.seed_vec@,
        }
    }
}

impl InputSeed {
    /// The seed as fresh seeds are made: favored, not yet fuzzed.
    pub open spec fn is_fresh(&self) -> bool {
        self.is_favored && !self.was_fuzzed
    }

    /// A favored, not yet fuzzed seed without bytes.
    #[allow(non_snake_case)]
    pub fn emptyNew() -> (seed: InputSeed)
        ensures
            seed@ == SeedView::fresh(Seq::<u8>::empty()),
    {
        InputSeed { is_favored: true, was_fuzzed: false, seed_vec: Vec::new() }
    }

    /// A favored, not yet fuzzed seed holding `seed_vec`.
    pub fn new(seed_vec: Vec<u8>) -> (seed: InputSeed)
        ensures
            seed@ == SeedView::fresh(seed_vec@),
            seed.seed_vec == seed_vec,
    {
        InputSeed { is_favored: true, was_fuzzed: false, seed_vec }
    }

    /// A copy of the seed's bytes.
    pub fn get_seed_vec(&self) -> (bytes: Vec<u8>)
        ensures
            bytes@ == self.seed_vec@,
    {
        self.seed_vec.clone()
    }

    /// A copy of the whole seed, flags included.
    pub fn duplicate(&self) -> (copy: InputSeed)
        ensures
            copy@ == self@,
    {
        InputSeed {
            is_favored: self.is_favored,
            was_fuzzed: self.was_fuzzed,
            seed_vec: self.seed_vec.clone(),
        }
    }
}

} // verus!
