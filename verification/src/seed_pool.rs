//! The corpus: the seeds in the order they came in, and a cursor that
//! walks them round-robin.

use vstd::prelude::*;
use crate::input_seed::{InputSeed, SeedView};

verus! {

#[derive(Debug)]
pub struct SeedPool {
    seed_pool: Vec<InputSeed>,
    seed_index: usize,
}

/// The first index from `from` on whose seed has bytes; 0 where `from` is
/// past the end or every seed from there on is empty.
pub open spec fn next_with_bytes(seeds: Seq<SeedView>, from: int) -> int
    decreases seeds.len() - from,
{
    if from <= 0 || from >= seeds.len() {
        0
    } else if seeds[from].bytes.len() > 0 {
        from
    } else {
        next_with_bytes(seeds, from + 1)
    }
}

impl SeedPool {
    /// The seeds, the oldest first.
    pub closed spec fn seeds(&self) -> Seq<SeedView> {
        self.seed_pool@.map_values(|seed: InputSeed| seed@)
    }

    /// The cursor. It equals the number of seeds once every seed has been
    /// handed out as an initial seed, and is an index otherwise.
    pub closed spec fn cursor(&self) -> nat {
        self.seed_index as nat
    }

    /// The cursor is not past the end, and every seed is favored and not
    /// yet fuzzed, as the pool makes them.
    pub open spec fn wf(&self) -> bool {
        &&& self.cursor() <= self.seeds().len()
        &&& forall|i: int|
            0 <= i < self.seeds().len() ==> (#[trigger] self.seeds()[i]).is_favored
                && !self.seeds()[i].was_fuzzed
    }

    /// A pool of two seeds, both the bytes 40, 32. `path` is where a corpus
    /// would be read from; it is not looked at.
    pub fn new(path: &str) -> (pool: SeedPool)
        ensures
            pool.wf(),
            pool.cursor() == 0,
            pool.seeds() == seq![
                SeedView::fresh(seq![40u8, 32u8]),
                SeedView::fresh(seq![40u8, 32u8]),
            ],
    {
        let seed1 = InputSeed::new(vec![40u8, 32u8]);
        let seed2 = InputSeed::new(vec![40u8, 32u8]);
        let pool = SeedPool { seed_pool: vec![seed1, seed2], seed_index: 0 };
        assert(seed1@.bytes =~= seq![40u8, 32u8]);
        assert(seed2@.bytes =~= seq![40u8, 32u8]);
        assert(pool.seeds() =~= seq![
            SeedView::fresh(seq![40u8, 32u8]),
            SeedView::fresh(seq![40u8, 32u8]),
        ]);
        pool
    }

    /// Number of seeds in the pool.
    pub fn len(&self) -> (count: usize)
        ensures
            count == self.seeds().len(),
    {
        self.seed_pool.len()
    }

    /// Hands out the seed at the cursor and moves the cursor on; once every
    /// seed has been handed out, returns `None` and sets the cursor back to
    /// the first seed.
    pub fn get_a_ini_seed(&mut self) -> (seed: Option<&InputSeed>)
        requires
            old(self).wf(),
        ensures
            final(self).wf(),
            final(self).seeds() == old(self).seeds(),
            old(self).cursor() < old(self).seeds().len() ==> seed is Some && seed->0@ == old(
                self,
            ).seeds()[old(self).cursor() as int] && final(self).cursor() == old(self).cursor() + 1,
            old(self).cursor() >= old(self).seeds().len() ==> seed is None && final(self).cursor()
                == 0,
    {
        if self.seed_index < self.seed_pool.len() {
            let index = self.seed_index;
            self.seed_index = index + 1;
            Some(&self.seed_pool[index])
        } else {
            self.seed_index = 0;
            None
        }
    }

    /// Moves the cursor to the next seed, and to the first one from the
    /// last.
    pub fn seed_index_move(&mut self)
        requires
            old(self).wf(),
        ensures
            final(self).wf(),
            final(self).seeds() == old(self).seeds(),
            final(self).cursor() == (if old(self).cursor() + 1 < old(self).seeds().len() {
                old(self).cursor() + 1
            } else {
                0
            }),
    {
        let len = self.seed_pool.len();
        if len == 0 || self.seed_index >= len - 1 {
            self.seed_index = 0;
        } else {
            self.seed_index += 1;
        }
    }

    /// A copy of the seed at the cursor, to serve as a mutation base. The
    /// cursor stays.
    pub fn get_a_seed_to_mutate(&mut self) -> (seed: InputSeed)
        requires
            old(self).wf(),
            old(self).cursor() < old(self).seeds().len(),
        ensures
            final(self).wf(),
            final(self).seeds() == old(self).seeds(),
            final(self).cursor() == old(self).cursor(),
            seed@ == old(self).seeds()[old(self).cursor() as int],
    {
        self.seed_pool[self.seed_index].duplicate()
    }

    /// Appends a favored, not yet fuzzed seed with the bytes `seed_vec`.
    pub fn push_a_seed(&mut self, seed_vec: Vec<u8>)
        requires
            old(self).wf(),
        ensures
            final(self).wf(),
            final(self).seeds() == old(self).seeds().push(SeedView::fresh(seed_vec@)),
            final(self).cursor() == old(self).cursor(),
    {
        self.seed_pool.push(InputSeed::new(seed_vec));
        assert(self.seeds() =~= old(self).seeds().push(SeedView::fresh(seed_vec@)));
    }
}

} // verus!
