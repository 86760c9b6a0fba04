//! The mutation core of a coverage-guided fuzzer.
//!
//! `SeedManagement` hands out one candidate input per call, first every
//! seed of the corpus as it is, then mutations of them, and takes back the
//! coverage that running a candidate gave. A candidate that reaches a
//! position of the coverage map that no earlier one reached joins the
//! corpus.

pub mod config;
pub mod input_seed;
pub mod random;
pub mod seed_generator;
pub mod seed_pool;

use vstd::prelude::*;
use crate::config::MAP_SIZE;
use crate::input_seed::SeedView;
use crate::seed_generator::mutator::is_havoc_result;
use crate::seed_generator::state_parser::FuzzingState;
use crate::seed_generator::stage_order::stage_of;
use crate::seed_generator::{carried_out, stage_output, SeedGenerator};
use crate::seed_pool::{next_with_bytes, SeedPool};

verus! {

/// Whether the coverage `cov` hits a position that `covered` has not seen.
pub open spec fn has_new_bits(covered: Seq<u32>, cov: Seq<u32>) -> bool {
    exists|i: int| 0 <= i < covered.len() && i < cov.len() && covered[i] == 0 && cov[i] != 0
}

/// `covered` with every position marked that `cov` hits. How often a
/// position was hit is not kept.
pub open spec fn merge_coverage(covered: Seq<u32>, cov: Seq<u32>) -> Seq<u32> {
    Seq::new(
        covered.len(),
        |i: int|
            if i < cov.len() && covered[i] == 0 && cov[i] != 0 {
                1u32
            } else {
                covered[i]
            },
    )
}

/// The positions that a coverage map has seen.
pub open spec fn hit_positions(covered: Seq<u32>) -> Set<int> {
    Set::new(|i: int| 0 <= i < covered.len() && covered[i] != 0)
}

/// The cumulative map after the coverage maps `maps` came in, one after
/// the other.
pub open spec fn merge_all(covered: Seq<u32>, maps: Seq<Seq<u32>>) -> Seq<u32>
    decreases maps.len(),
{
    if maps.len() == 0 {
        covered
    } else {
        merge_coverage(merge_all(covered, maps.drop_last()), maps.last())
    }
}

/// Taking in a coverage map adds the positions it hits to those seen and
/// loses none.
pub proof fn lemma_merge_coverage_hits(covered: Seq<u32>, cov: Seq<u32>)
    requires
        cov.len() == covered.len(),
    ensures
        hit_positions(merge_coverage(covered, cov)) == hit_positions(covered).union(
            hit_positions(cov),
        ),
        hit_positions(covered).subset_of(hit_positions(merge_coverage(covered, cov))),
{
    assert(hit_positions(merge_coverage(covered, cov)) =~= hit_positions(covered).union(
        hit_positions(cov),
    ));
}

/// Whatever coverage maps come in, in whatever order, no position that was
/// seen is ever lost.
pub proof fn lemma_coverage_never_shrinks(covered: Seq<u32>, maps: Seq<Seq<u32>>)
    ensures
        merge_all(covered, maps).len() == covered.len(),
        hit_positions(covered).subset_of(hit_positions(merge_all(covered, maps))),
    decreases maps.len(),
{
    if maps.len() > 0 {
        lemma_coverage_never_shrinks(covered, maps.drop_last());
    }
}

/// A coverage map without a hit brings nothing new.
pub proof fn lemma_empty_coverage_is_not_new(covered: Seq<u32>, cov: Seq<u32>)
    requires
        forall|i: int| 0 <= i < cov.len() ==> cov[i] == 0,
    ensures
        !has_new_bits(covered, cov),
        merge_coverage(covered, cov) == covered,
{
    assert(merge_coverage(covered, cov) =~= covered);
}

/// A coverage map that was taken in before brings nothing new.
pub proof fn lemma_seen_coverage_is_not_new(covered: Seq<u32>, cov: Seq<u32>)
    ensures
        !has_new_bits(merge_coverage(covered, cov), cov),
        merge_coverage(merge_coverage(covered, cov), cov) == merge_coverage(covered, cov),
{
    assert(merge_coverage(merge_coverage(covered, cov), cov) =~= merge_coverage(covered, cov));
}

/// A coverage map brings something new exactly if it hits a position that
/// was not seen.
pub proof fn lemma_new_bits_are_new_hits(covered: Seq<u32>, cov: Seq<u32>)
    requires
        cov.len() == covered.len(),
    ensures
        has_new_bits(covered, cov) <==> !hit_positions(cov).subset_of(hit_positions(covered)),
{
    if has_new_bits(covered, cov) {
        let i = choose|i: int|
            0 <= i < covered.len() && i < cov.len() && covered[i] == 0 && cov[i] != 0;
        assert(hit_positions(cov).contains(i));
        assert(!hit_positions(covered).contains(i));
    }
    if !hit_positions(cov).subset_of(hit_positions(covered)) {
        let i = choose|i: int|
            hit_positions(cov).contains(i) && !hit_positions(covered).contains(i);
        assert(covered[i] == 0 && cov[i] != 0);
    }
}

/// The position that the next mutation of a seed with the bytes `bytes`
/// carries out, where `stage` is the one carried out last and `outer`,
/// `inner` the havoc budget: the first bit flip where the walk starts over,
/// the first position after `stage` that is not redundant otherwise, and
/// `End` where the seed is empty or has no position left.
pub open spec fn due_stage(
    bytes: Seq<u8>,
    stage: FuzzingState,
    outer: nat,
    inner: nat,
) -> FuzzingState {
    if stage_of(stage) <= 2 || stage is End {
        if bytes.len() == 0 {
            FuzzingState::End
        } else {
            FuzzingState::StateFlip1(0)
        }
    } else {
        carried_out(bytes, stage, outer, inner)
    }
}

/// The corpus, the generator that mutates its seeds, and the coverage seen
/// so far.
///
/// It starts in the initial mode, in which it hands out the seeds as they
/// are, and moves for good to the mutate mode once every seed has been
/// handed out.
pub struct SeedManagement {
    seed_generator: SeedGenerator,
    seed_pool: SeedPool,
    in_mutate: bool,
    covered_bit_map: [u32; MAP_SIZE],
    seed_current: Vec<u8>,
}

impl SeedManagement {
    /// The seeds of the corpus, the oldest first.
    pub closed spec fn seeds(&self) -> Seq<SeedView> {
        self.seed_pool.seeds()
    }

    /// The corpus cursor: the seed handed out next in the initial mode, the
    /// seed being mutated in the mutate mode.
    pub closed spec fn cursor(&self) -> nat {
        self.seed_pool.cursor()
    }

    /// Whether the mutate mode has been entered.
    pub closed spec fn in_mutate(&self) -> bool {
        self.in_mutate
    }

    /// The cumulative coverage map: a position is non-zero once some
    /// coverage map that came in hit it.
    pub closed spec fn covered(&self) -> Seq<u32> {
        self.covered_bit_map@
    }

    /// The candidate handed out last.
    pub closed spec fn current(&self) -> Seq<u8> {
        self.seed_current@
    }

    /// The position of the mutation walk that was carried out last.
    pub closed spec fn stage(&self) -> FuzzingState {
        self.seed_generator.state()
    }

    /// Number of havoc rounds drawn for the seed being mutated.
    pub closed spec fn havoc_outer(&self) -> nat {
        self.seed_generator.havoc_outer()
    }

    /// Number of tweaks stacked in one havoc round.
    pub closed spec fn havoc_inner(&self) -> nat {
        self.seed_generator.havoc_inner()
    }

    /// The corpus is never empty and its first seed has bytes; every seed
    /// is favored and not yet fuzzed; every bit of every seed and of the
    /// current candidate has an offset that fits into 64 bits; in the
    /// initial mode the walk has not started; in the mutate mode the cursor
    /// is at a seed and the walk is one over that seed.
    pub closed spec fn wf(&self) -> bool {
        &&& self.seed_pool.wf()
        &&& self.seeds().len() >= 1
        &&& self.seeds()[0].bytes.len() >= 1
        &&& forall|i: int|
            0 <= i < self.seeds().len() ==> 8 * (#[trigger] self.seeds()[i]).bytes.len()
                <= u64::MAX
        &&& 8 * self.current().len() <= u64::MAX
        &&& self.covered().len() == MAP_SIZE
        &&& if self.in_mutate {
            &&& self.cursor() < self.seeds().len()
            &&& self.seed_generator.ready_for(self.seeds()[self.cursor() as int].bytes.len())
        } else {
            &&& self.seed_generator.ready_for(0)
            &&& self.stage() is Ready
        }
    }

    /// What a well-formed manager offers to its callers.
    pub proof fn lemma_wf(&self)
        requires
            self.wf(),
        ensures
            self.seeds().len() >= 1,
            self.seeds()[0].bytes.len() >= 1,
            forall|i: int|
                0 <= i < self.seeds().len() ==> (#[trigger] self.seeds()[i]).is_favored
                    && !self.seeds()[i].was_fuzzed,
            self.covered().len() == MAP_SIZE,
            self.cursor() <= self.seeds().len(),
            self.in_mutate() ==> self.cursor() < self.seeds().len(),
            !self.in_mutate() ==> self.stage() is Ready,
    {
    }

    /// A manager over the two-seed corpus of `SeedPool::new`, in the
    /// initial mode, with nothing covered and no candidate handed out.
    pub fn new(path: &str) -> (manager: SeedManagement)
        ensures
            manager.wf(),
            !manager.in_mutate(),
            manager.cursor() == 0,
            manager.seeds() == seq![
                SeedView::fresh(seq![40u8, 32u8]),
                SeedView::fresh(seq![40u8, 32u8]),
            ],
            manager.covered() == Seq::new(MAP_SIZE as nat, |i: int| 0u32),
            manager.current() == Seq::<u8>::empty(),
            manager.stage() is Ready,
    {
        let manager = SeedManagement {
            seed_generator: SeedGenerator::new(),
            seed_pool: SeedPool::new(path),
            in_mutate: false,
            covered_bit_map: [0;MAP_SIZE],
            seed_current: Vec::new(),
        };
        assert(manager.covered() =~= Seq::new(MAP_SIZE as nat, |i: int| 0u32));
        manager
    }

    /// Number of seeds in the corpus.
    pub fn seed_count(&self) -> (count: usize)
        ensures
            count == self.seeds().len(),
    {
        self.seed_pool.len()
    }

    /// Whether some coverage map that came in hit `position`.
    pub fn is_covered(&self, position: usize) -> (hit: bool)
        ensures
            hit == (position < MAP_SIZE && self.covered()[position as int] != 0),
    {
        position < MAP_SIZE && self.covered_bit_map[position] != 0
    }

    /// Hands out the next candidate.
    ///
    /// In the initial mode that is the seed at the cursor, as it is, and
    /// the cursor moves on. Once every seed has been handed out the mutate
    /// mode begins, with the cursor at the first seed. In the mutate mode
    /// the candidate is the next mutation of the seed at the cursor: the one
    /// of the position `due_stage`. Where that seed has no position left,
    /// the cursor moves to the next seed that has bytes, round-robin, and
    /// the candidate is that seed with its first bit flipped.
    pub fn get_a_seed(&mut self) -> (seed: Vec<u8>)
        requires
            old(self).wf(),
        ensures
            final(self).wf(),
            seed@ == final(self).current(),
            final(self).seeds() == old(self).seeds(),
            final(self).covered() == old(self).covered(),
            if !old(self).in_mutate() && old(self).cursor() < old(self).seeds().len() {
                &&& seed@ == old(self).seeds()[old(self).cursor() as int].bytes
                &&& final(self).cursor() == old(self).cursor() + 1
                &&& !final(self).in_mutate()
                &&& final(self).stage() is Ready
            } else {
                let base = if old(self).in_mutate() {
                    old(self).cursor() as int
                } else {
                    0
                };
                let due = due_stage(
                    old(self).seeds()[base].bytes,
                    old(self).stage(),
                    old(self).havoc_outer(),
                    old(self).havoc_inner(),
                );
                &&& final(self).in_mutate()
                &&& final(self).cursor() == (if due is End {
                    next_with_bytes(old(self).seeds(), base + 1)
                } else {
                    base
                })
                &&& final(self).stage() == (if due is End {
                    FuzzingState::StateFlip1(0)
                } else {
                    due
                })
                &&& if final(self).stage() is StateHavoc {
                    is_havoc_result(old(self).seeds()[final(self).cursor() as int].bytes, seed@)
                } else {
                    seed@ == stage_output(
                        old(self).seeds()[final(self).cursor() as int].bytes,
                        final(self).stage(),
                    )
                }
            },
    {
        if !self.in_mutate {
            if let Some(seed) = self.seed_pool.get_a_ini_seed() {
                self.seed_current = seed.get_seed_vec();
                return self.seed_current.clone();
            }
            self.in_mutate = true;
        }
        let ghost seeds = self.seeds();
        let ghost base = self.cursor() as int;
        let ghost due = due_stage(
            seeds[base].bytes,
            old(self).stage(),
            old(self).havoc_outer(),
            old(self).havoc_inner(),
        );
        let mut seed_to_mutate = self.seed_pool.get_a_seed_to_mutate();
        let mut seed_vec_option = self.seed_generator.get_a_mutated_seed(&seed_to_mutate);
        let ghost mut first = true;
        loop
            invariant
                self.seed_pool.wf(),
                self.in_mutate,
                self.seeds() == seeds,
                seeds == old(self).seeds(),
                seeds.len() >= 1,
                seeds[0].bytes.len() >= 1,
                forall|i: int| 0 <= i < seeds.len() ==> 8 * (#[trigger] seeds[i]).bytes.len()
                    <= u64::MAX,
                self.covered() == old(self).covered(),
                self.covered().len() == MAP_SIZE,
                self.cursor() < seeds.len(),
                0 <= base < seeds.len(),
                old(self).in_mutate() || old(self).cursor() >= old(self).seeds().len(),
                base == (if old(self).in_mutate() {
                    old(self).cursor() as int
                } else {
                    0
                }),
                seed_to_mutate@ == seeds[self.cursor() as int],
                self.seed_generator.ready_for(seeds[self.cursor() as int].bytes.len()),
                due == due_stage(
                    seeds[base].bytes,
                    old(self).stage(),
                    old(self).havoc_outer(),
                    old(self).havoc_inner(),
                ),
                first ==> self.cursor() == base,
                first ==> (seed_vec_option is None <==> due is End),
                first && seed_vec_option is Some ==> self.stage() == due,
                !first ==> due is End,
                !first ==> next_with_bytes(seeds, base + 1) == next_with_bytes(
                    seeds,
                    self.cursor() as int,
                ),
                !first && self.cursor() > 0 ==> (seed_vec_option is None
                    <==> seeds[self.cursor() as int].bytes.len() == 0),
                !first && self.cursor() == 0 ==> seed_vec_option is Some,
                !first && seed_vec_option is Some ==> self.stage() == FuzzingState::StateFlip1(0),
                seed_vec_option is None ==> self.stage() is Ready,
                match seed_vec_option {
                    Some(v) => {
                        &&& v@.len() >= 1
                        &&& 8 * v@.len() <= u64::MAX
                        &&& if self.stage() is StateHavoc {
                            is_havoc_result(seeds[self.cursor() as int].bytes, v@)
                        } else {
                            v@ == stage_output(seeds[self.cursor() as int].bytes, self.stage())
                        }
                    },
                    None => true,
                },
            decreases
                    (if seed_vec_option is Some {
                        0int
                    } else if self.cursor() == 0 {
                        seeds.len() as int + 1
                    } else {
                        seeds.len() - self.cursor() + 1
                    }),
        {
            match seed_vec_option {
                Some(seed_vec) => {
                    proof {
                        reveal_with_fuel(next_with_bytes, 2);
                    }
                    self.seed_current = seed_vec;
                    return self.seed_current.clone();
                },
                None => {},
            }
            // this seed gives nothing: go on to the next one
            self.seed_pool.seed_index_move();
            seed_to_mutate = self.seed_pool.get_a_seed_to_mutate();
            seed_vec_option = self.seed_generator.get_a_mutated_seed(&seed_to_mutate);
            proof {
                first = false;
                reveal_with_fuel(next_with_bytes, 2);
            }
        }
    }

    /// Marks in the cumulative map every position that `cov_info` hits, and
    /// tells whether one of them had not been seen.
    pub fn has_new_bits_and_change(&mut self, cov_info: [u32; MAP_SIZE]) -> (is_changed: bool)
        requires
            old(self).wf(),
        ensures
            final(self).wf(),
            is_changed == has_new_bits(old(self).covered(), cov_info@),
            final(self).covered() == merge_coverage(old(self).covered(), cov_info@),
            final(self).seeds() == old(self).seeds(),
            final(self).cursor() == old(self).cursor(),
            final(self).in_mutate() == old(self).in_mutate(),
            final(self).current() == old(self).current(),
            final(self).stage() == old(self).stage(),
            final(self).havoc_outer() == old(self).havoc_outer(),
            final(self).havoc_inner() == old(self).havoc_inner(),
    {
        let mut is_changed: bool = false;
        let ghost before = self.covered_bit_map@;
        let mut i: usize = 0;
        while i < MAP_SIZE
            invariant
                i <= MAP_SIZE,
                before == old(self).covered(),
                before.len() == MAP_SIZE,
                self.seed_generator == old(self).seed_generator,
                self.seed_pool == old(self).seed_pool,
                self.in_mutate == old(self).in_mutate,
                self.seed_current == old(self).seed_current,
                forall|j: int|
                    0 <= j < i ==> self.covered_bit_map@[j] == merge_coverage(before, cov_info@)[j],
                forall|j: int| i <= j < MAP_SIZE ==> self.covered_bit_map@[j] == before[j],
                is_changed == (exists|j: int|
                    0 <= j < i && before[j] == 0 && cov_info@[j] != 0),
            decreases MAP_SIZE - i,
        {
            let ghost seen = exists|j: int| 0 <= j < i && before[j] == 0 && cov_info@[j] != 0;
            if self.covered_bit_map[i] == 0 && cov_info[i] != 0 {
                self.covered_bit_map[i] = 1;
                is_changed = true;
                assert(before[i as int] == 0 && cov_info@[i as int] != 0);
            } else {
                assert(!(before[i as int] == 0 && cov_info@[i as int] != 0));
                assert forall|j: int|
                    0 <= j < i + 1 && before[j] == 0 && cov_info@[j] != 0 implies j < i by {}
            }
            i += 1;
        }
        assert(self.covered_bit_map@ =~= merge_coverage(before, cov_info@));
        is_changed
    }

    /// Takes in the coverage that running the current candidate gave. The
    /// candidate joins the corpus, as a favored and not yet fuzzed seed at
    /// its end, if and only if the coverage hits a position that no
    /// earlier coverage hit.
    pub fn give_coverage_info(&mut self, cov_info: [u32; MAP_SIZE])
        requires
            old(self).wf(),
        ensures
            final(self).wf(),
            final(self).covered() == merge_coverage(old(self).covered(), cov_info@),
            final(self).seeds() == (if has_new_bits(old(self).covered(), cov_info@) {
                old(self).seeds().push(SeedView::fresh(old(self).current()))
            } else {
                old(self).seeds()
            }),
            final(self).cursor() == old(self).cursor(),
            final(self).in_mutate() == old(self).in_mutate(),
            final(self).current() == old(self).current(),
            final(self).stage() == old(self).stage(),
            final(self).havoc_outer() == old(self).havoc_outer(),
            final(self).havoc_inner() == old(self).havoc_inner(),
    {
        if self.has_new_bits_and_change(cov_info) {
            self.seed_pool.push_a_seed(self.seed_current.clone());
        }
    }
}

} // verus!
