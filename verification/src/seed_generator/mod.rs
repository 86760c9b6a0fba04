//! The seed generator: walks the mutation stages for the seed it is given
//! and hands out one mutated buffer per call.

pub mod mutator;
pub mod selector;
pub mod stage_order;
pub mod state_parser;

use vstd::prelude::*;
use crate::input_seed::InputSeed;
use crate::random::thread_rng;
use crate::seed_generator::mutator::{
    add_is_redundant, arith_add, arith_sub, flip_bits, flip_bytes, interesting_replace,
    is_havoc_result, lemma_flip_bits_len, lemma_put_word_len, put_word, sub_is_redundant,
};
use crate::seed_generator::selector::Selector;
use crate::seed_generator::stage_order::{
    lemma_rank_step, lemma_stage_start_monotone, lemma_rank_within_stage, rank, stage_of,
    stage_start,
};
use crate::seed_generator::state_parser::{
    havoc_budget_valid, next_state, state_valid, FuzzingState, StateParser,
};

verus! {

/// Whether the position is passed over for the bytes `s`: an arithmetic
/// position whose change a bit or byte flip makes as well.
pub open spec fn is_redundant(s: Seq<u8>, state: FuzzingState) -> bool {
    match state {
        FuzzingState::StateAddArith8((i, j)) => add_is_redundant(
            s,
            i as int,
            1,
            j as nat,
            false,
        ),
        FuzzingState::StateSubArith8((i, j)) => sub_is_redundant(
            s,
            i as int,
            1,
            j as nat,
            false,
        ),
        FuzzingState::StateAddArith16((i, j)) => add_is_redundant(
            s,
            i as int,
            2,
            j as nat,
            false,
        ),
        FuzzingState::StateSubArith16((i, j)) => sub_is_redundant(
            s,
            i as int,
            2,
            j as nat,
            false,
        ),
        FuzzingState::StateAddArith16AnotherEndian((i, j)) => add_is_redundant(
            s,
            i as int,
            2,
            j as nat,
            true,
        ),
        FuzzingState::StateSubArith16AnotherEndian((i, j)) => sub_is_redundant(
            s,
            i as int,
            2,
            j as nat,
            true,
        ),
        FuzzingState::StateAddArith32((i, j)) => add_is_redundant(
            s,
            i as int,
            4,
            j as nat,
            false,
        ),
        FuzzingState::StateSubArith32((i, j)) => sub_is_redundant(
            s,
            i as int,
            4,
            j as nat,
            false,
        ),
        FuzzingState::StateAddArith32AnotherEndian((i, j)) => add_is_redundant(
            s,
            i as int,
            4,
            j as nat,
            true,
        ),
        FuzzingState::StateSubArith32AnotherEndian((i, j)) => sub_is_redundant(
            s,
            i as int,
            4,
            j as nat,
            true,
        ),
        _ => false,
    }
}

/// The buffer that carrying out a position of a deterministic stage makes
/// of the bytes `s`.
pub open spec fn stage_output(s: Seq<u8>, state: FuzzingState) -> Seq<u8> {
    match state {
        FuzzingState::StateFlip1(i) => flip_bits(s, i as int, 1),
        FuzzingState::StateFlip2(i) => flip_bits(s, i as int, 2),
        FuzzingState::StateFlip4(i) => flip_bits(s, i as int, 4),
        FuzzingState::StateFlip8(i) => flip_bytes(s, i as int, 1),
        FuzzingState::StateFlip16(i) => flip_bytes(s, i as int, 2),
        FuzzingState::StateFlip32(i) => flip_bytes(s, i as int, 4),
        FuzzingState::StateAddArith8((i, j)) => arith_add(s, i as int, 1, j as nat, false),
        FuzzingState::StateSubArith8((i, j)) => arith_sub(s, i as int, 1, j as nat, false),
        FuzzingState::StateAddArith16((i, j)) => arith_add(s, i as int, 2, j as nat, false),
        FuzzingState::StateSubArith16((i, j)) => arith_sub(s, i as int, 2, j as nat, false),
        FuzzingState::StateAddArith16AnotherEndian((i, j)) => arith_add(
            s,
            i as int,
            2,
            j as nat,
            true,
        ),
        FuzzingState::StateSubArith16AnotherEndian((i, j)) => arith_sub(
            s,
            i as int,
            2,
            j as nat,
            true,
        ),
        FuzzingState::StateAddArith32((i, j)) => arith_add(s, i as int, 4, j as nat, false),
        FuzzingState::StateSubArith32((i, j)) => arith_sub(s, i as int, 4, j as nat, false),
        FuzzingState::StateAddArith32AnotherEndian((i, j)) => arith_add(
            s,
            i as int,
            4,
            j as nat,
            true,
        ),
        FuzzingState::StateSubArith32AnotherEndian((i, j)) => arith_sub(
            s,
            i as int,
            4,
            j as nat,
            true,
        ),
        FuzzingState::StateInterest8((i, k)) => interesting_replace(
            s,
            i as int,
            1,
            k as int,
            false,
        ),
        FuzzingState::StateInterest16((i, k)) => interesting_replace(
            s,
            i as int,
            2,
            k as int,
            false,
        ),
        FuzzingState::StateInterest16AnotherEndian((i, k)) => interesting_replace(
            s,
            i as int,
            2,
            k as int,
            true,
        ),
        FuzzingState::StateInterest32((i, k)) => interesting_replace(
            s,
            i as int,
            4,
            k as int,
            false,
        ),
        FuzzingState::StateInterest32AnotherEndian((i, k)) => interesting_replace(
            s,
            i as int,
            4,
            k as int,
            true,
        ),
        _ => s,
    }
}

/// Number of positions from `state` up to the havoc stage; 0 from there on.
pub open spec fn steps_to_havoc(state: FuzzingState, len: nat, outer: nat, inner: nat) -> nat {
    if stage_of(state) >= 24 {
        0
    } else {
        (stage_start(24, len, outer, inner) - rank(state, len, outer, inner)) as nat
    }
}

/// The first position from `state` on that is not passed over for the
/// bytes `s`: the one that gets carried out where `state` is the one due.
pub open spec fn first_productive(
    s: Seq<u8>,
    state: FuzzingState,
    outer: nat,
    inner: nat,
) -> FuzzingState
    decreases steps_to_havoc(state, s.len(), outer, inner),
    when state_valid(state, s.len(), outer, inner) && 8 * s.len() <= u64::MAX
    via first_productive_decreases
{
    if is_redundant(s, state) {
        first_productive(s, next_state(state, s.len(), outer, inner), outer, inner)
    } else {
        state
    }
}

#[via_fn]
proof fn first_productive_decreases(s: Seq<u8>, state: FuzzingState, outer: nat, inner: nat) {
    if is_redundant(s, state) {
        lemma_steps_to_havoc(state, s.len(), outer, inner);
    }
}

/// A step from a position before the havoc stage leads one position
/// closer to it.
pub proof fn lemma_steps_to_havoc(state: FuzzingState, len: nat, outer: nat, inner: nat)
    requires
        state_valid(state, len, outer, inner),
        havoc_budget_valid(outer, inner),
        8 * len <= u64::MAX,
        stage_of(state) < 24,
    ensures
        state_valid(next_state(state, len, outer, inner), len, outer, inner),
        steps_to_havoc(next_state(state, len, outer, inner), len, outer, inner) + 1
            == steps_to_havoc(state, len, outer, inner),
{
    let next = next_state(state, len, outer, inner);
    lemma_rank_step(state, len, outer, inner);
    lemma_rank_within_stage(state, len, outer, inner);
    lemma_stage_start_monotone(stage_of(state) + 1, 24, len, outer, inner);
    lemma_rank_within_stage(next, len, outer, inner);
    if stage_of(next) < 24 {
        lemma_stage_start_monotone(stage_of(next) + 1, 24, len, outer, inner);
    } else {
        lemma_stage_start_monotone(24, stage_of(next), len, outer, inner);
    }
}

/// The position that is due first when a call starts with `state` as the
/// one carried out last: the first bit flip where the walk starts over or
/// has not yet passed the calibration, `End` at once for an empty seed,
/// and else the position after `state`.
pub open spec fn first_due(state: FuzzingState, len: nat, outer: nat, inner: nat) -> FuzzingState {
    if stage_of(state) <= 2 || state is End {
        if len == 0 {
            FuzzingState::End
        } else {
            FuzzingState::StateFlip1(0)
        }
    } else {
        next_state(state, len, outer, inner)
    }
}

/// Whether a call that finds `state` as the position carried out last
/// starts the walk over with a selection.
pub open spec fn starts_over(state: FuzzingState) -> bool {
    state is Ready || state is End
}

/// The position that a call carries out for the bytes `s` where `state` is
/// the one carried out last, or `End` where none is left.
pub open spec fn carried_out(
    s: Seq<u8>,
    state: FuzzingState,
    outer: nat,
    inner: nat,
) -> FuzzingState {
    first_productive(s, first_due(state, s.len(), outer, inner), outer, inner)
}

/// Carries out one position of the walk on the bytes of the seed: the
/// operator of the position's stage, at the position's offset and with its
/// parameter. An arithmetic position whose change is redundant gives
/// `None`; a havoc position draws its tweak at random.
pub fn carry_out(origin_seed_vec: &Vec<u8>, state: FuzzingState) -> (mutated: Option<Vec<u8>>)
    requires
        3 <= stage_of(state) <= 24,
        8 * origin_seed_vec@.len() <= u64::MAX,
        exists|outer: nat, inner: nat| state_valid(state, origin_seed_vec@.len(), outer, inner),
    ensures
        match mutated {
            None => is_redundant(origin_seed_vec@, state),
            Some(v) => {
                &&& !is_redundant(origin_seed_vec@, state)
                &&& v@.len() >= 1
                &&& 8 * v@.len() <= u64::MAX
                &&& if state is StateHavoc {
                    is_havoc_result(origin_seed_vec@, v@)
                } else {
                    v@ == stage_output(origin_seed_vec@, state)
                }
            },
        },
{
    let mutated_seed_opt: Option<Vec<u8>>;
    proof {
        lemma_stage_output_len(origin_seed_vec@, state);
    }
    match state {
        FuzzingState::StateFlip1(i) => {
            mutated_seed_opt = Some(mutator::flip_one_bit(origin_seed_vec, i));
        },
        FuzzingState::StateFlip2(i) => {
            mutated_seed_opt = Some(mutator::flip_two_bits(origin_seed_vec, i));
        },
        FuzzingState::StateFlip4(i) => {
            mutated_seed_opt = Some(mutator::flip_four_bits(origin_seed_vec, i));
        },
        FuzzingState::StateFlip8(i) => {
            mutated_seed_opt = Some(mutator::flip_one_byte(origin_seed_vec, i));
        },
        FuzzingState::StateFlip16(i) => {
            mutated_seed_opt = Some(mutator::flip_two_bytes(origin_seed_vec, i));
        },
        FuzzingState::StateFlip32(i) => {
            mutated_seed_opt = Some(mutator::flip_four_bytes(origin_seed_vec, i));
        },
        FuzzingState::StateAddArith8((i, arith_j)) => {
            mutated_seed_opt = mutator::arithmetic_add_one_byte_option(origin_seed_vec, i, arith_j);
        },
        FuzzingState::StateSubArith8((i, arith_j)) => {
            mutated_seed_opt = mutator::arithmetic_sub_one_byte_option(origin_seed_vec, i, arith_j);
        },
        FuzzingState::StateAddArith16((i, arith_j)) => {
            mutated_seed_opt = mutator::arithmetic_add_two_bytes_option(
                origin_seed_vec,
                i,
                arith_j,
            );
        },
        FuzzingState::StateSubArith16((i, arith_j)) => {
            mutated_seed_opt = mutator::arithmetic_sub_two_bytes_option(
                origin_seed_vec,
                i,
                arith_j,
            );
        },
        FuzzingState::StateAddArith16AnotherEndian((i, arith_j)) => {
            mutated_seed_opt = mutator::arithmetic_add_two_bytes_another_endian_option(
                origin_seed_vec,
                i,
                arith_j,
            );
        },
        FuzzingState::StateSubArith16AnotherEndian((i, arith_j)) => {
            mutated_seed_opt = mutator::arithmetic_sub_two_bytes_another_endian_option(
                origin_seed_vec,
                i,
                arith_j,
            );
        },
        FuzzingState::StateAddArith32((i, arith_j)) => {
            mutated_seed_opt = mutator::arithmetic_add_four_bytes_option(
                origin_seed_vec,
                i,
                arith_j,
            );
        },
        FuzzingState::StateSubArith32((i, arith_j)) => {
            mutated_seed_opt = mutator::arithmetic_sub_four_bytes_option(
                origin_seed_vec,
                i,
                arith_j,
            );
        },
        FuzzingState::StateAddArith32AnotherEndian((i, arith_j)) => {
            mutated_seed_opt = mutator::arithmetic_add_four_bytes_another_endian_option(
                origin_seed_vec,
                i,
                arith_j,
            );
        },
        FuzzingState::StateSubArith32AnotherEndian((i, arith_j)) => {
            mutated_seed_opt = mutator::arithmetic_sub_four_bytes_another_endian_option(
                origin_seed_vec,
                i,
                arith_j,
            );
        },
        FuzzingState::StateInterest8((i, index_count)) => {
            mutated_seed_opt = Some(mutator::interesting8_replace(origin_seed_vec, i, index_count));
        },
        FuzzingState::StateInterest16((i, index_count)) => {
            mutated_seed_opt = Some(
                mutator::interesting16_replace(origin_seed_vec, i, index_count),
            );
        },
        FuzzingState::StateInterest16AnotherEndian((i, index_count)) => {
            mutated_seed_opt = Some(
                mutator::interesting16_replace_another_endian(origin_seed_vec, i, index_count),
            );
        },
        FuzzingState::StateInterest32((i, index_count)) => {
            mutated_seed_opt = Some(
                mutator::interesting32_replace(origin_seed_vec, i, index_count),
            );
        },
        FuzzingState::StateInterest32AnotherEndian((i, index_count)) => {
            mutated_seed_opt = Some(
                mutator::interesting32_replace_another_endian(origin_seed_vec, i, index_count),
            );
        },
        FuzzingState::StateHavoc((_outer_cnt, _inner_cnt)) => {
            let mut rang = thread_rng();
            mutated_seed_opt = Some(mutator::havoc_mutate(origin_seed_vec, &mut rang));
        },
        _ => {
            mutated_seed_opt = None;
        },
    }
    mutated_seed_opt
}

#[derive(Debug)]
pub struct SeedGenerator {
    state_parser: StateParser,
    seed_selector: Selector,
}

impl SeedGenerator {
    /// The position carried out last.
    pub closed spec fn state(&self) -> FuzzingState {
        self.state_parser.state()
    }

    /// The length of the seed that the walk is over.
    pub closed spec fn seed_len(&self) -> nat {
        self.state_parser.seed_len()
    }

    /// Number of havoc rounds drawn for the seed.
    pub closed spec fn havoc_outer(&self) -> nat {
        self.state_parser.havoc_outer()
    }

    /// Number of tweaks stacked in one havoc round.
    pub closed spec fn havoc_inner(&self) -> nat {
        self.state_parser.havoc_inner()
    }

    /// The walk is at a position that it can take for its seed.
    pub closed spec fn wf(&self) -> bool {
        self.state_parser.wf()
    }

    /// The generator can go on with a seed of `len` bytes: it is about to
    /// start over, or the seed it is walking has this length.
    pub open spec fn ready_for(&self, len: nat) -> bool {
        &&& self.wf()
        &&& 8 * len <= u64::MAX
        &&& (self.state() is Ready || self.seed_len() == len)
    }

    pub fn new() -> (generator: SeedGenerator)
        ensures
            generator.wf(),
            generator.state() is Ready,
    {
        SeedGenerator { state_parser: StateParser::new(), seed_selector: Selector {  } }
    }

    /// As `new`: the seed is not looked at.
    pub fn origin(input_seed: InputSeed) -> (generator: SeedGenerator)
        ensures
            generator.wf(),
            generator.state() is Ready,
    {
        SeedGenerator { state_parser: StateParser::new(), seed_selector: Selector {  } }
    }

    /// Hands out the next mutation of `input_seed`, or `None` where the seed
    /// is passed by at selection or has no position left.
    ///
    /// Where the walk starts over (from `Ready` or `End`) the seed is put
    /// to selection first; a favored seed that was never fuzzed is always
    /// taken. Then the havoc budget is drawn. Then the first position from
    /// `first_due` on that is not redundant is carried out and recorded.
    /// After `None` the walk is back at `Ready`.
    pub fn get_a_mutated_seed(&mut self, input_seed: &InputSeed) -> (mutated: Option<Vec<u8>>)
        requires
            old(self).ready_for(input_seed.seed_vec@.len()),
        ensures
            final(self).ready_for(input_seed.seed_vec@.len()),
            stage_of(old(self).state()) >= 3 && !(old(self).state() is End) ==> {
                &&& final(self).havoc_outer() == old(self).havoc_outer()
                &&& final(self).havoc_inner() == old(self).havoc_inner()
            },
            stage_of(old(self).state()) <= 2 || old(self).state() is End ==> match mutated {
                None => !input_seed.is_fresh() || input_seed.seed_vec@.len() == 0,
                Some(v) => final(self).state() == FuzzingState::StateFlip1(0),
            },
            match mutated {
                None => {
                    &&& final(self).state() is Ready
                    &&& (input_seed.is_fresh() || !starts_over(old(self).state()))
                        ==> carried_out(
                        input_seed.seed_vec@,
                        old(self).state(),
                        final(self).havoc_outer(),
                        final(self).havoc_inner(),
                    ) is End
                },
                Some(v) => {
                    &&& final(self).state() == carried_out(
                        input_seed.seed_vec@,
                        old(self).state(),
                        final(self).havoc_outer(),
                        final(self).havoc_inner(),
                    )
                    &&& !(final(self).state() is End)
                    &&& if final(self).state() is StateHavoc {
                        is_havoc_result(input_seed.seed_vec@, v@)
                    } else {
                        v@ == stage_output(input_seed.seed_vec@, final(self).state())
                    }
                    &&& v@.len() >= 1
                    &&& 8 * v@.len() <= u64::MAX
                },
            },
    {
        let origin_seed_vec = input_seed.get_seed_vec();
        let seed_len = origin_seed_vec.len() as u64;
        let ghost bytes = input_seed.seed_vec@;

        let mut state = self.state_parser.get_next_mutate_state(seed_len);
        if let FuzzingState::Ready = state {
            // the last seed was walked to its end: start over
            self.state_parser.change_to_next_state(state);
            state = self.state_parser.get_next_mutate_state(seed_len);
        }
        // a new seed has to pass the selection first
        if let FuzzingState::Select = state {
            if !self.seed_selector.whether_select(input_seed) {
                self.state_parser.change_to_next_state(FuzzingState::Ready);
                return None;
            }
            self.state_parser.change_to_next_state(state);
            state = self.state_parser.get_next_mutate_state(seed_len);
        }
        if let FuzzingState::CalHavocTimes = state {
            self.state_parser.change_to_next_state(state);
            state = self.state_parser.get_next_mutate_state(seed_len);
        }
        let ghost outer = self.state_parser.havoc_outer();
        let ghost inner = self.state_parser.havoc_inner();
        let ghost due = state;
        assert(due == first_due(old(self).state(), bytes.len(), outer, inner));

        loop
            invariant
                self.state_parser.wf(),
                self.state_parser.seed_len() == bytes.len(),
                self.state_parser.havoc_outer() == outer,
                self.state_parser.havoc_inner() == inner,
                8 * bytes.len() <= u64::MAX,
                bytes == input_seed.seed_vec@,
                origin_seed_vec@ == bytes,
                seed_len == bytes.len(),
                state == self.state_parser.upcoming(),
                state_valid(state, bytes.len(), outer, inner),
                stage_of(state) >= 3,
                due == first_due(old(self).state(), bytes.len(), outer, inner),
                stage_of(old(self).state()) >= 3 && !(old(self).state() is End) ==> {
                    &&& outer == old(self).havoc_outer()
                    &&& inner == old(self).havoc_inner()
                },
                first_productive(bytes, state, outer, inner) == first_productive(
                    bytes,
                    due,
                    outer,
                    inner,
                ),
            decreases steps_to_havoc(state, bytes.len(), outer, inner),
        {
            if let FuzzingState::End = state {
                // the seed has no position left
                self.state_parser.change_to_next_state(FuzzingState::Ready);
                return None;
            }
            let mutated_seed_opt = carry_out(&origin_seed_vec, state);
            self.state_parser.change_to_next_state(state);
            match mutated_seed_opt {
                Some(mutated_seed_vec) => {
                    return Some(mutated_seed_vec);
                },
                None => {
                    // this change was covered by an earlier stage: try the next one
                    proof {
                        lemma_steps_to_havoc(state, bytes.len(), outer, inner);
                    }
                    state = self.state_parser.get_next_mutate_state(seed_len);
                },
            }
        }
    }
}

/// No deterministic stage changes the length of the buffer.
pub proof fn lemma_stage_output_len(s: Seq<u8>, state: FuzzingState)
    requires
        exists|outer: nat, inner: nat| state_valid(state, s.len(), outer, inner),
    ensures
        stage_output(s, state).len() == s.len(),
{
    assert forall|pos: int, n: nat|
        0 <= pos && pos + n <= 8 * s.len() implies (#[trigger] flip_bits(s, pos, n)).len()
        == s.len() by {
        lemma_flip_bits_len(s, pos, n);
    }
    assert forall|pos: int, n: nat, v: nat, other_endian: bool|
        0 <= pos && pos + n <= s.len() implies (#[trigger] put_word(
        s,
        pos,
        n,
        v,
        other_endian,
    )).len() == s.len() by {
        lemma_put_word_len(s, pos, n, v, other_endian);
    }
}

} // verus!
