//! The order in which the mutation stages are walked for one seed.
//!
//! A seed is first selected, then the havoc budget is drawn, then every
//! deterministic stage runs over all of its positions and parameters, then
//! the havoc stage runs for its budget, then the seed is done.

use vstd::prelude::*;
use crate::config::{
    ARITH_MAX, HAVOC_CYCLES_INIT, HAVOC_STACK_POW2, INTERESTING_16_CNT, INTERESTING_32_CNT,
    INTERESTING_8_CNT,
};
use crate::random::{gen_range, thread_rng};

verus! {

/// One position in the walk through the stages.
///
/// The bit flips carry a bit offset, the byte flips a byte offset, the
/// arithmetic stages a byte offset and a delta, the stages of interesting
/// values a byte offset and a table index, and havoc the number of the round
/// and of the tweak within it.
#[derive(PartialEq, Debug, Clone, Copy)]
pub enum FuzzingState {
    Ready,
    Select,
    CalHavocTimes,
    StateFlip1(u64),
    StateFlip2(u64),
    StateFlip4(u64),
    StateFlip8(u64),
    StateFlip16(u64),
    StateFlip32(u64),
    StateAddArith8((u64, u8)),
    StateSubArith8((u64, u8)),
    StateAddArith16((u64, u16)),
    StateSubArith16((u64, u16)),
    StateAddArith16AnotherEndian((u64, u16)),
    StateSubArith16AnotherEndian((u64, u16)),
    StateAddArith32((u64, u32)),
    StateSubArith32((u64, u32)),
    StateAddArith32AnotherEndian((u64, u32)),
    StateSubArith32AnotherEndian((u64, u32)),
    StateInterest8((u64, u8)),
    StateInterest16((u64, u8)),
    StateInterest16AnotherEndian((u64, u8)),
    StateInterest32((u64, u8)),
    StateInterest32AnotherEndian((u64, u8)),
    StateHavoc((u64, u8)),
    End,
}

impl Default for FuzzingState {
    fn default() -> (state: FuzzingState)
        ensures
            state is Ready,
    {
        FuzzingState::Ready
    }
}

/// Number of bit offsets at which `width` bits fit into `len` bytes.
pub open spec fn bit_positions(len: nat, width: nat) -> nat {
    if 8 * len >= width {
        (8 * len - width + 1) as nat
    } else {
        0
    }
}

/// Number of byte offsets at which `width` bytes fit into `len` bytes.
pub open spec fn byte_positions(len: nat, width: nat) -> nat {
    if len >= width {
        (len - width + 1) as nat
    } else {
        0
    }
}

/// A havoc budget as the calibration draws it: between 1 and
/// `HAVOC_CYCLES_INIT` rounds, and a power of two between 2 and
/// 2 to the `HAVOC_STACK_POW2` as the stacking.
pub open spec fn havoc_budget_valid(outer: nat, inner: nat) -> bool {
    &&& 1 <= outer <= HAVOC_CYCLES_INIT
    &&& (inner == 2 || inner == 4 || inner == 8 || inner == 16 || inner == 32 || inner == 64
        || inner == 128)
}

/// Whether `state` is a position that the walk over a seed of `len` bytes
/// with the havoc budget `outer`, `inner` can take: its offset leaves room
/// for the width of its stage, its parameter is within the stage's range,
/// and from the first bit flip on the budget has been drawn.
pub open spec fn state_valid(state: FuzzingState, len: nat, outer: nat, inner: nat) -> bool {
    match state {
        FuzzingState::Ready => true,
        FuzzingState::Select => true,
        FuzzingState::End => true,
        FuzzingState::CalHavocTimes => len >= 1,
        FuzzingState::StateFlip1(i) => havoc_budget_valid(outer, inner) && len >= 1 && i
            < bit_positions(len, 1),
        FuzzingState::StateFlip2(i) => havoc_budget_valid(outer, inner) && len >= 1 && i
            < bit_positions(len, 2),
        FuzzingState::StateFlip4(i) => havoc_budget_valid(outer, inner) && len >= 1 && i
            < bit_positions(len, 4),
        FuzzingState::StateFlip8(i) => havoc_budget_valid(outer, inner) && i < byte_positions(
            len,
            1,
        ),
        FuzzingState::StateFlip16(i) => havoc_budget_valid(outer, inner) && i < byte_positions(
            len,
            2,
        ),
        FuzzingState::StateFlip32(i) => havoc_budget_valid(outer, inner) && i < byte_positions(
            len,
            4,
        ),
        FuzzingState::StateAddArith8((i, j)) | FuzzingState::StateSubArith8((i, j)) => {
            havoc_budget_valid(outer, inner) && i < byte_positions(len, 1) && j < ARITH_MAX
        },
        FuzzingState::StateAddArith16((i, j))
        | FuzzingState::StateSubArith16((i, j))
        | FuzzingState::StateAddArith16AnotherEndian((i, j))
        | FuzzingState::StateSubArith16AnotherEndian((i, j)) => {
            havoc_budget_valid(outer, inner) && i < byte_positions(len, 2) && j < ARITH_MAX
        },
        FuzzingState::StateAddArith32((i, j))
        | FuzzingState::StateSubArith32((i, j))
        | FuzzingState::StateAddArith32AnotherEndian((i, j))
        | FuzzingState::StateSubArith32AnotherEndian((i, j)) => {
            havoc_budget_valid(outer, inner) && i < byte_positions(len, 4) && j < ARITH_MAX
        },
        FuzzingState::StateInterest8((i, k)) => havoc_budget_valid(outer, inner) && i
            < byte_positions(len, 1) && k < INTERESTING_8_CNT,
        FuzzingState::StateInterest16((i, k))
        | FuzzingState::StateInterest16AnotherEndian((i, k)) => {
            havoc_budget_valid(outer, inner) && i < byte_positions(len, 2) && k
                < INTERESTING_16_CNT
        },
        FuzzingState::StateInterest32((i, k))
        | FuzzingState::StateInterest32AnotherEndian((i, k)) => {
            havoc_budget_valid(outer, inner) && i < byte_positions(len, 4) && k
                < INTERESTING_32_CNT
        },
        FuzzingState::StateHavoc((round, tweak)) => havoc_budget_valid(outer, inner) && len >= 1
            && round < outer && tweak <= inner,
    }
}

/// The first position of the byte-wide arithmetic, which follows the flips.
pub open spec fn first_arith8() -> FuzzingState {
    FuzzingState::StateAddArith8((0, 0))
}

/// The first position after the byte-wide arithmetic: the word-wide
/// arithmetic, or the interesting bytes where no word fits.
pub open spec fn after_arith8(len: nat) -> FuzzingState {
    if len < 2 {
        FuzzingState::StateInterest8((0, 0))
    } else {
        FuzzingState::StateAddArith16((0, 0))
    }
}

/// The first position after the word-wide arithmetic.
pub open spec fn after_arith16(len: nat) -> FuzzingState {
    if len < 4 {
        FuzzingState::StateInterest8((0, 0))
    } else {
        FuzzingState::StateAddArith32((0, 0))
    }
}

/// The first position after the interesting bytes.
pub open spec fn after_interest8(len: nat) -> FuzzingState {
    if len < 2 {
        FuzzingState::StateHavoc((0, 0))
    } else {
        FuzzingState::StateInterest16((0, 0))
    }
}

/// The first position after the interesting words.
pub open spec fn after_interest16(len: nat) -> FuzzingState {
    if len < 4 {
        FuzzingState::StateHavoc((0, 0))
    } else {
        FuzzingState::StateInterest32((0, 0))
    }
}

/// The position that follows `state` in the walk over a seed of `len` bytes
/// with the havoc budget `outer`, `inner`.
///
/// Within a stage the parameter runs fastest: every delta or table index at
/// one offset comes before the next offset. A stage whose width does not
/// fit the seed is passed over. `End` leads back to `Ready`.
pub open spec fn next_state(state: FuzzingState, len: nat, outer: nat, inner: nat) -> FuzzingState {
    match state {
        FuzzingState::Ready => FuzzingState::Select,
        FuzzingState::Select => if len == 0 {
            FuzzingState::End
        } else {
            FuzzingState::CalHavocTimes
        },
        FuzzingState::CalHavocTimes => FuzzingState::StateFlip1(0),
        FuzzingState::StateFlip1(i) => if i + 1 < bit_positions(len, 1) {
            FuzzingState::StateFlip1((i + 1) as u64)
        } else {
            FuzzingState::StateFlip2(0)
        },
        FuzzingState::StateFlip2(i) => if i + 1 < bit_positions(len, 2) {
            FuzzingState::StateFlip2((i + 1) as u64)
        } else {
            FuzzingState::StateFlip4(0)
        },
        FuzzingState::StateFlip4(i) => if i + 1 < bit_positions(len, 4) {
            FuzzingState::StateFlip4((i + 1) as u64)
        } else {
            FuzzingState::StateFlip8(0)
        },
        FuzzingState::StateFlip8(i) => if i + 1 < byte_positions(len, 1) {
            FuzzingState::StateFlip8((i + 1) as u64)
        } else if len < 2 {
            first_arith8()
        } else {
            FuzzingState::StateFlip16(0)
        },
        FuzzingState::StateFlip16(i) => if i + 1 < byte_positions(len, 2) {
            FuzzingState::StateFlip16((i + 1) as u64)
        } else if len < 4 {
            first_arith8()
        } else {
            FuzzingState::StateFlip32(0)
        },
        FuzzingState::StateFlip32(i) => if i + 1 < byte_positions(len, 4) {
            FuzzingState::StateFlip32((i + 1) as u64)
        } else {
            first_arith8()
        },
        FuzzingState::StateAddArith8((i, j)) => if j + 1 < ARITH_MAX {
            FuzzingState::StateAddArith8((i, (j + 1) as u8))
        } else if i + 1 < byte_positions(len, 1) {
            FuzzingState::StateAddArith8(((i + 1) as u64, 0))
        } else {
            FuzzingState::StateSubArith8((0, 0))
        },
        FuzzingState::StateSubArith8((i, j)) => if j + 1 < ARITH_MAX {
            FuzzingState::StateSubArith8((i, (j + 1) as u8))
        } else if i + 1 < byte_positions(len, 1) {
            FuzzingState::StateSubArith8(((i + 1) as u64, 0))
        } else {
            after_arith8(len)
        },
        FuzzingState::StateAddArith16((i, j)) => if j + 1 < ARITH_MAX {
            FuzzingState::StateAddArith16((i, (j + 1) as u16))
        } else if i + 1 < byte_positions(len, 2) {
            FuzzingState::StateAddArith16(((i + 1) as u64, 0))
        } else {
            FuzzingState::StateSubArith16((0, 0))
        },
        FuzzingState::StateSubArith16((i, j)) => if j + 1 < ARITH_MAX {
            FuzzingState::StateSubArith16((i, (j + 1) as u16))
        } else if i + 1 < byte_positions(len, 2) {
            FuzzingState::StateSubArith16(((i + 1) as u64, 0))
        } else {
            FuzzingState::StateAddArith16AnotherEndian((0, 0))
        },
        FuzzingState::StateAddArith16AnotherEndian((i, j)) => if j + 1 < ARITH_MAX {
            FuzzingState::StateAddArith16AnotherEndian((i, (j + 1) as u16))
        } else if i + 1 < byte_positions(len, 2) {
            FuzzingState::StateAddArith16AnotherEndian(((i + 1) as u64, 0))
        } else {
            FuzzingState::StateSubArith16AnotherEndian((0, 0))
        },
        FuzzingState::StateSubArith16AnotherEndian((i, j)) => if j + 1 < ARITH_MAX {
            FuzzingState::StateSubArith16AnotherEndian((i, (j + 1) as u16))
        } else if i + 1 < byte_positions(len, 2) {
            FuzzingState::StateSubArith16AnotherEndian(((i + 1) as u64, 0))
        } else {
            after_arith16(len)
        },
        FuzzingState::StateAddArith32((i, j)) => if j + 1 < ARITH_MAX {
            FuzzingState::StateAddArith32((i, (j + 1) as u32))
        } else if i + 1 < byte_positions(len, 4) {
            FuzzingState::StateAddArith32(((i + 1) as u64, 0))
        } else {
            FuzzingState::StateSubArith32((0, 0))
        },
        FuzzingState::StateSubArith32((i, j)) => if j + 1 < ARITH_MAX {
            FuzzingState::StateSubArith32((i, (j + 1) as u32))
        } else if i + 1 < byte_positions(len, 4) {
            FuzzingState::StateSubArith32(((i + 1) as u64, 0))
        } else {
            FuzzingState::StateAddArith32AnotherEndian((0, 0))
        },
        FuzzingState::StateAddArith32AnotherEndian((i, j)) => if j + 1 < ARITH_MAX {
            FuzzingState::StateAddArith32AnotherEndian((i, (j + 1) as u32))
        } else if i + 1 < byte_positions(len, 4) {
            FuzzingState::StateAddArith32AnotherEndian(((i + 1) as u64, 0))
        } else {
            FuzzingState::StateSubArith32AnotherEndian((0, 0))
        },
        FuzzingState::StateSubArith32AnotherEndian((i, j)) => if j + 1 < ARITH_MAX {
            FuzzingState::StateSubArith32AnotherEndian((i, (j + 1) as u32))
        } else if i + 1 < byte_positions(len, 4) {
            FuzzingState::StateSubArith32AnotherEndian(((i + 1) as u64, 0))
        } else {
            FuzzingState::StateInterest8((0, 0))
        },
        FuzzingState::StateInterest8((i, k)) => if k + 1 < INTERESTING_8_CNT {
            FuzzingState::StateInterest8((i, (k + 1) as u8))
        } else if i + 1 < byte_positions(len, 1) {
            FuzzingState::StateInterest8(((i + 1) as u64, 0))
        } else {
            after_interest8(len)
        },
        FuzzingState::StateInterest16((i, k)) => if k + 1 < INTERESTING_16_CNT {
            FuzzingState::StateInterest16((i, (k + 1) as u8))
        } else if i + 1 < byte_positions(len, 2) {
            FuzzingState::StateInterest16(((i + 1) as u64, 0))
        } else {
            FuzzingState::StateInterest16AnotherEndian((0, 0))
        },
        FuzzingState::StateInterest16AnotherEndian((i, k)) => if k + 1 < INTERESTING_16_CNT {
            FuzzingState::StateInterest16AnotherEndian((i, (k + 1) as u8))
        } else if i + 1 < byte_positions(len, 2) {
            FuzzingState::StateInterest16AnotherEndian(((i + 1) as u64, 0))
        } else {
            after_interest16(len)
        },
        FuzzingState::StateInterest32((i, k)) => if k + 1 < INTERESTING_32_CNT {
            FuzzingState::StateInterest32((i, (k + 1) as u8))
        } else if i + 1 < byte_positions(len, 4) {
            FuzzingState::StateInterest32(((i + 1) as u64, 0))
        } else {
            FuzzingState::StateInterest32AnotherEndian((0, 0))
        },
        FuzzingState::StateInterest32AnotherEndian((i, k)) => if k + 1 < INTERESTING_32_CNT {
            FuzzingState::StateInterest32AnotherEndian((i, (k + 1) as u8))
        } else if i + 1 < byte_positions(len, 4) {
            FuzzingState::StateInterest32AnotherEndian(((i + 1) as u64, 0))
        } else {
            FuzzingState::StateHavoc((0, 0))
        },
        FuzzingState::StateHavoc((round, tweak)) => if tweak < inner {
            FuzzingState::StateHavoc((round, (tweak + 1) as u8))
        } else if round + 1 < outer {
            FuzzingState::StateHavoc(((round + 1) as u64, 0))
        } else {
            FuzzingState::End
        },
        FuzzingState::End => FuzzingState::Ready,
    }
}

/// The walk never leaves the valid positions.
pub proof fn lemma_next_state_valid(state: FuzzingState, len: nat, outer: nat, inner: nat)
    requires
        state_valid(state, len, outer, inner),
        state is CalHavocTimes ==> havoc_budget_valid(outer, inner),
    ensures
        state_valid(next_state(state, len, outer, inner), len, outer, inner),
{
}

/// Keeps the walk's position for the seed that is being mutated, and the
/// havoc budget drawn for it.
///
/// The position kept is the one that was carried out last;
/// `get_next_mutate_state` names the one to carry out next, and
/// `change_to_next_state` records that it was.
#[derive(Debug)]
pub struct StateParser {
    seed_len: u64,
    mutate_state: FuzzingState,
    havoc_outer_times: u64,
    havoc_inner_times: u8,
}

impl Default for StateParser {
    fn default() -> (parser: StateParser)
        ensures
            parser.wf(),
            parser.state() is Ready,
    {
        StateParser::new()
    }
}

impl StateParser {
    /// The position carried out last.
    pub closed spec fn state(&self) -> FuzzingState {
        self.mutate_state
    }

    /// The length of the seed that the walk is over.
    pub closed spec fn seed_len(&self) -> nat {
        self.seed_len as nat
    }

    /// Number of havoc rounds drawn for the seed.
    pub closed spec fn havoc_outer(&self) -> nat {
        self.havoc_outer_times as nat
    }

    /// Number of tweaks stacked in one havoc round.
    pub closed spec fn havoc_inner(&self) -> nat {
        self.havoc_inner_times as nat
    }

    /// The position kept is one that the walk over the seed can take, and
    /// every bit offset of the seed fits into 64 bits.
    pub open spec fn wf(&self) -> bool {
        &&& 8 * self.seed_len() <= u64::MAX
        &&& state_valid(self.state(), self.seed_len(), self.havoc_outer(), self.havoc_inner())
    }

    /// The position that follows the one kept.
    pub open spec fn upcoming(&self) -> FuzzingState {
        next_state(self.state(), self.seed_len(), self.havoc_outer(), self.havoc_inner())
    }

    pub fn new() -> (parser: StateParser)
        ensures
            parser.wf(),
            parser.state() is Ready,
            parser.seed_len() == 0,
    {
        StateParser {
            seed_len: 0,
            mutate_state: FuzzingState::Ready,
            havoc_outer_times: 0,
            havoc_inner_times: 0,
        }
    }

    fn set_seed_len(&mut self, input_seed_len: u64)
        ensures
            final(self).seed_len() == input_seed_len,
            final(self).state() == old(self).state(),
            final(self).havoc_outer() == old(self).havoc_outer(),
            final(self).havoc_inner() == old(self).havoc_inner(),
    {
        self.seed_len = input_seed_len;
    }

    /// Draws the number of havoc rounds: between 1 and `HAVOC_CYCLES_INIT`.
    fn calculate_havoc_outer_times(&mut self)
        ensures
            1 <= final(self).havoc_outer() <= HAVOC_CYCLES_INIT,
            final(self).seed_len() == old(self).seed_len(),
            final(self).state() == old(self).state(),
            final(self).havoc_inner() == old(self).havoc_inner(),
    {
        let mut rng = thread_rng();
        self.havoc_outer_times = 1 + gen_range(&mut rng, 0, HAVOC_CYCLES_INIT as u64);
    }

    /// Draws the stacking of a havoc round: 2 to the power of a number
    /// between 1 and `HAVOC_STACK_POW2`.
    fn calculate_havoc_inner_times(&mut self)
        ensures
            havoc_budget_valid(1, final(self).havoc_inner()),
            final(self).seed_len() == old(self).seed_len(),
            final(self).state() == old(self).state(),
            final(self).havoc_outer() == old(self).havoc_outer(),
    {
        let mut rng = thread_rng();
        let exponent = (1 + gen_range(&mut rng, 0, HAVOC_STACK_POW2 as u64)) as u8;
        assert(exponent < 8 && ((1u8 << exponent) == 2 || (1u8 << exponent) == 4 || (1u8
            << exponent) == 8 || (1u8 << exponent) == 16 || (1u8 << exponent) == 32 || (1u8
            << exponent) == 64 || (1u8 << exponent) == 128)) by (bit_vector)
            requires
                1 <= exponent <= 7,
        ;
        self.havoc_inner_times = 1u8 << exponent;
    }

    fn state_select_next(&self, len: u64) -> (next: FuzzingState)
        ensures
            next == next_state(FuzzingState::Select, len as nat, 0, 0),
    {
        if len == 0 {
            return FuzzingState::End;
        }
        FuzzingState::CalHavocTimes
    }

    fn state_cal_havoc_next(&self) -> (next: FuzzingState)
        ensures
            next == FuzzingState::StateFlip1(0),
    {
        FuzzingState::StateFlip1(0)
    }

    fn state_flip1_next(&self, len: u64, now_count: u64) -> (next: FuzzingState)
        requires
            8 * len <= u64::MAX,
            len >= 1,
            now_count < bit_positions(len as nat, 1),
        ensures
            next == next_state(FuzzingState::StateFlip1(now_count), len as nat, 0, 0),
    {
        let state_count = len * 8 - 1;
        if now_count < state_count {
            return FuzzingState::StateFlip1(now_count + 1);
        }
        FuzzingState::StateFlip2(0)
    }

    fn state_flip2_next(&self, len: u64, now_count: u64) -> (next: FuzzingState)
        requires
            8 * len <= u64::MAX,
            len >= 1,
            now_count < bit_positions(len as nat, 2),
        ensures
            next == next_state(FuzzingState::StateFlip2(now_count), len as nat, 0, 0),
    {
        let state_count = len * 8 - 2;
        if now_count < state_count {
            return FuzzingState::StateFlip2(now_count + 1);
        }
        FuzzingState::StateFlip4(0)
    }

    fn state_flip4_next(&self, len: u64, now_count: u64) -> (next: FuzzingState)
        requires
            8 * len <= u64::MAX,
            len >= 1,
            now_count < bit_positions(len as nat, 4),
        ensures
            next == next_state(FuzzingState::StateFlip4(now_count), len as nat, 0, 0),
    {
        let state_count = len * 8 - 4;
        if now_count < state_count {
            return FuzzingState::StateFlip4(now_count + 1);
        }
        FuzzingState::StateFlip8(0)
    }

    fn state_flip8_next(&self, len: u64, now_count: u64) -> (next: FuzzingState)
        requires
            now_count < byte_positions(len as nat, 1),
        ensures
            next == next_state(FuzzingState::StateFlip8(now_count), len as nat, 0, 0),
    {
        let state_count = len - 1;
        if now_count < state_count {
            return FuzzingState::StateFlip8(now_count + 1);
        }
        // no room for two bytes
        if len < 2 {
            return FuzzingState::StateAddArith8((0, 0));
        }
        FuzzingState::StateFlip16(0)
    }

    fn state_flip16_next(&self, len: u64, now_count: u64) -> (next: FuzzingState)
        requires
            now_count < byte_positions(len as nat, 2),
        ensures
            next == next_state(FuzzingState::StateFlip16(now_count), len as nat, 0, 0),
    {
        let state_count = len - 2;
        if now_count < state_count {
            return FuzzingState::StateFlip16(now_count + 1);
        }
        // no room for four bytes
        if len < 4 {
            return FuzzingState::StateAddArith8((0, 0));
        }
        FuzzingState::StateFlip32(0)
    }

    fn state_flip32_next(&self, len: u64, now_count: u64) -> (next: FuzzingState)
        requires
            now_count < byte_positions(len as nat, 4),
        ensures
            next == next_state(FuzzingState::StateFlip32(now_count), len as nat, 0, 0),
    {
        let state_count = len - 4;
        if now_count < state_count {
            return FuzzingState::StateFlip32(now_count + 1);
        }
        FuzzingState::StateAddArith8((0, 0))
    }

    fn state_arith8_add_next(
        &self,
        len: u64,
        now_count: u64,
        arith_count: u8,
    ) -> (next: FuzzingState)
        requires
            now_count < byte_positions(len as nat, 1),
            arith_count < ARITH_MAX,
        ensures
            next == next_state(
                FuzzingState::StateAddArith8((now_count, arith_count)),
                len as nat,
                0,
                0,
            ),
    {
        let state_count = len - 0;
        if arith_count < ARITH_MAX - 1 {
            return FuzzingState::StateAddArith8((now_count, arith_count + 1));
        }
        if now_count == state_count - 1 {
            // every offset is done: on to the next stage
            return FuzzingState::StateSubArith8((0, 0));
        }
        FuzzingState::StateAddArith8((now_count + 1, 0))
    }

    fn state_arith8_sub_next(
        &self,
        len: u64,
        now_count: u64,
        arith_count: u8,
    ) -> (next: FuzzingState)
        requires
            now_count < byte_positions(len as nat, 1),
            arith_count < ARITH_MAX,
        ensures
            next == next_state(
                FuzzingState::StateSubArith8((now_count, arith_count)),
                len as nat,
                0,
                0,
            ),
    {
        let state_count = len - 0;
        if arith_count < ARITH_MAX - 1 {
            return FuzzingState::StateSubArith8((now_count, arith_count + 1));
        }
        if now_count == state_count - 1 {
            // every offset is done: on to the next stage
            if len < 2 {
                return FuzzingState::StateInterest8((0, 0));
            }
            return FuzzingState::StateAddArith16((0, 0));
        }
        FuzzingState::StateSubArith8((now_count + 1, 0))
    }

    fn state_arith16_add_next(
        &self,
        len: u64,
        now_count: u64,
        arith_count: u16,
    ) -> (next: FuzzingState)
        requires
            now_count < byte_positions(len as nat, 2),
            arith_count < ARITH_MAX,
        ensures
            next == next_state(
                FuzzingState::StateAddArith16((now_count, arith_count)),
                len as nat,
                0,
                0,
            ),
    {
        let state_count = len - 1;
        if arith_count < ARITH_MAX as u16 - 1 {
            return FuzzingState::StateAddArith16((now_count, arith_count + 1));
        }
        if now_count == state_count - 1 {
            // every offset is done: on to the next stage
            return FuzzingState::StateSubArith16((0, 0));
        }
        FuzzingState::StateAddArith16((now_count + 1, 0))
    }

    fn state_arith16_sub_next(
        &self,
        len: u64,
        now_count: u64,
        arith_count: u16,
    ) -> (next: FuzzingState)
        requires
            now_count < byte_positions(len as nat, 2),
            arith_count < ARITH_MAX,
        ensures
            next == next_state(
                FuzzingState::StateSubArith16((now_count, arith_count)),
                len as nat,
                0,
                0,
            ),
    {
        let state_count = len - 1;
        if arith_count < ARITH_MAX as u16 - 1 {
            return FuzzingState::StateSubArith16((now_count, arith_count + 1));
        }
        if now_count == state_count - 1 {
            // every offset is done: on to the next stage
            return FuzzingState::StateAddArith16AnotherEndian((0, 0));
        }
        FuzzingState::StateSubArith16((now_count + 1, 0))
    }

    fn state_arith16_add_another_endian_next(
        &self,
        len: u64,
        now_count: u64,
        arith_count: u16,
    ) -> (next: FuzzingState)
        requires
            now_count < byte_positions(len as nat, 2),
            arith_count < ARITH_MAX,
        ensures
            next == next_state(
                FuzzingState::StateAddArith16AnotherEndian((now_count, arith_count)),
                len as nat,
                0,
                0,
            ),
    {
        let state_count = len - 1;
        if arith_count < ARITH_MAX as u16 - 1 {
            return FuzzingState::StateAddArith16AnotherEndian((now_count, arith_count + 1));
        }
        if now_count == state_count - 1 {
            // every offset is done: on to the next stage
            return FuzzingState::StateSubArith16AnotherEndian((0, 0));
        }
        FuzzingState::StateAddArith16AnotherEndian((now_count + 1, 0))
    }

    fn state_arith16_sub_another_endian_next(
        &self,
        len: u64,
        now_count: u64,
        arith_count: u16,
    ) -> (next: FuzzingState)
        requires
            now_count < byte_positions(len as nat, 2),
            arith_count < ARITH_MAX,
        ensures
            next == next_state(
                FuzzingState::StateSubArith16AnotherEndian((now_count, arith_count)),
                len as nat,
                0,
                0,
            ),
    {
        let state_count = len - 1;
        if arith_count < ARITH_MAX as u16 - 1 {
            return FuzzingState::StateSubArith16AnotherEndian((now_count, arith_count + 1));
        }
        if now_count == state_count - 1 {
            // every offset is done: on to the next stage
            if len < 4 {
                return FuzzingState::StateInterest8((0, 0));
            }
            return FuzzingState::StateAddArith32((0, 0));
        }
        FuzzingState::StateSubArith16AnotherEndian((now_count + 1, 0))
    }

    fn state_arith32_add_next(
        &self,
        len: u64,
        now_count: u64,
        arith_count: u32,
    ) -> (next: FuzzingState)
        requires
            now_count < byte_positions(len as nat, 4),
            arith_count < ARITH_MAX,
        ensures
            next == next_state(
                FuzzingState::StateAddArith32((now_count, arith_count)),
                len as nat,
                0,
                0,
            ),
    {
        let state_count = len - 3;
        if arith_count < ARITH_MAX as u32 - 1 {
            return FuzzingState::StateAddArith32((now_count, arith_count + 1));
        }
        if now_count == state_count - 1 {
            // every offset is done: on to the next stage
            return FuzzingState::StateSubArith32((0, 0));
        }
        FuzzingState::StateAddArith32((now_count + 1, 0))
    }

    fn state_arith32_sub_next(
        &self,
        len: u64,
        now_count: u64,
        arith_count: u32,
    ) -> (next: FuzzingState)
        requires
            now_count < byte_positions(len as nat, 4),
            arith_count < ARITH_MAX,
        ensures
            next == next_state(
                FuzzingState::StateSubArith32((now_count, arith_count)),
                len as nat,
                0,
                0,
            ),
    {
        let state_count = len - 3;
        if arith_count < ARITH_MAX as u32 - 1 {
            return FuzzingState::StateSubArith32((now_count, arith_count + 1));
        }
        if now_count == state_count - 1 {
            // every offset is done: on to the next stage
            return FuzzingState::StateAddArith32AnotherEndian((0, 0));
        }
        FuzzingState::StateSubArith32((now_count + 1, 0))
    }

    fn state_arith32_add_another_endian_next(
        &self,
        len: u64,
        now_count: u64,
        arith_count: u32,
    ) -> (next: FuzzingState)
        requires
            now_count < byte_positions(len as nat, 4),
            arith_count < ARITH_MAX,
        ensures
            next == next_state(
                FuzzingState::StateAddArith32AnotherEndian((now_count, arith_count)),
                len as nat,
                0,
                0,
            ),
    {
        let state_count = len - 3;
        if arith_count < ARITH_MAX as u32 - 1 {
            return FuzzingState::StateAddArith32AnotherEndian((now_count, arith_count + 1));
        }
        if now_count == state_count - 1 {
            // every offset is done: on to the next stage
            return FuzzingState::StateSubArith32AnotherEndian((0, 0));
        }
        FuzzingState::StateAddArith32AnotherEndian((now_count + 1, 0))
    }

    fn state_arith32_sub_another_endian_next(
        &self,
        len: u64,
        now_count: u64,
        arith_count: u32,
    ) -> (next: FuzzingState)
        requires
            now_count < byte_positions(len as nat, 4),
            arith_count < ARITH_MAX,
        ensures
            next == next_state(
                FuzzingState::StateSubArith32AnotherEndian((now_count, arith_count)),
                len as nat,
                0,
                0,
            ),
    {
        let state_count = len - 3;
        if arith_count < ARITH_MAX as u32 - 1 {
            return FuzzingState::StateSubArith32AnotherEndian((now_count, arith_count + 1));
        }
        if now_count == state_count - 1 {
            // every offset is done: on to the next stage
            return FuzzingState::StateInterest8((0, 0));
        }
        FuzzingState::StateSubArith32AnotherEndian((now_count + 1, 0))
    }

    fn state_interesting8_next(
        &self,
        len: u64,
        now_count: u64,
        index_count: u8,
    ) -> (next: FuzzingState)
        requires
            now_count < byte_positions(len as nat, 1),
            index_count < INTERESTING_8_CNT,
        ensures
            next == next_state(
                FuzzingState::StateInterest8((now_count, index_count)),
                len as nat,
                0,
                0,
            ),
    {
        let state_count = len - 0;
        if index_count < INTERESTING_8_CNT - 1 {
            return FuzzingState::StateInterest8((now_count, index_count + 1));
        }
        if now_count == state_count - 1 {
            // every offset is done: on to the next stage
            if len < 2 {
                return FuzzingState::StateHavoc((0, 0));
            }
            return FuzzingState::StateInterest16((0, 0));
        }
        FuzzingState::StateInterest8((now_count + 1, 0))
    }

    fn state_interesting16_next(
        &self,
        len: u64,
        now_count: u64,
        index_count: u8,
    ) -> (next: FuzzingState)
        requires
            now_count < byte_positions(len as nat, 2),
            index_count < INTERESTING_16_CNT,
        ensures
            next == next_state(
                FuzzingState::StateInterest16((now_count, index_count)),
                len as nat,
                0,
                0,
            ),
    {
        let state_count = len - 1;
        if index_count < INTERESTING_16_CNT - 1 {
            return FuzzingState::StateInterest16((now_count, index_count + 1));
        }
        if now_count == state_count - 1 {
            // every offset is done: on to the next stage
            return FuzzingState::StateInterest16AnotherEndian((0, 0));
        }
        FuzzingState::StateInterest16((now_count + 1, 0))
    }

    fn state_interesting16_another_endian_next(
        &self,
        len: u64,
        now_count: u64,
        index_count: u8,
    ) -> (next: FuzzingState)
        requires
            now_count < byte_positions(len as nat, 2),
            index_count < INTERESTING_16_CNT,
        ensures
            next == next_state(
                FuzzingState::StateInterest16AnotherEndian((now_count, index_count)),
                len as nat,
                0,
                0,
            ),
    {
        let state_count = len - 1;
        if index_count < INTERESTING_16_CNT - 1 {
            return FuzzingState::StateInterest16AnotherEndian((now_count, index_count + 1));
        }
        if now_count == state_count - 1 {
            // every offset is done: on to the next stage
            if len < 4 {
                return FuzzingState::StateHavoc((0, 0));
            }
            return FuzzingState::StateInterest32((0, 0));
        }
        FuzzingState::StateInterest16AnotherEndian((now_count + 1, 0))
    }

    fn state_interesting32_next(
        &self,
        len: u64,
        now_count: u64,
        index_count: u8,
    ) -> (next: FuzzingState)
        requires
            now_count < byte_positions(len as nat, 4),
            index_count < INTERESTING_32_CNT,
        ensures
            next == next_state(
                FuzzingState::StateInterest32((now_count, index_count)),
                len as nat,
                0,
                0,
            ),
    {
        let state_count = len - 3;
        if index_count < INTERESTING_32_CNT - 1 {
            return FuzzingState::StateInterest32((now_count, index_count + 1));
        }
        if now_count == state_count - 1 {
            // every offset is done: on to the next stage
            return FuzzingState::StateInterest32AnotherEndian((0, 0));
        }
        FuzzingState::StateInterest32((now_count + 1, 0))
    }

    fn state_interesting32_another_endian_next(
        &self,
        len: u64,
        now_count: u64,
        index_count: u8,
    ) -> (next: FuzzingState)
        requires
            now_count < byte_positions(len as nat, 4),
            index_count < INTERESTING_32_CNT,
        ensures
            next == next_state(
                FuzzingState::StateInterest32AnotherEndian((now_count, index_count)),
                len as nat,
                0,
                0,
            ),
    {
        let state_count = len - 3;
        if index_count < INTERESTING_32_CNT - 1 {
            return FuzzingState::StateInterest32AnotherEndian((now_count, index_count + 1));
        }
        if now_count == state_count - 1 {
            // every offset is done: on to the next stage
            return FuzzingState::StateHavoc((0, 0));
        }
        FuzzingState::StateInterest32AnotherEndian((now_count + 1, 0))
    }

    fn state_havoc_next(&self, outer_count: u64, inner_count: u8) -> (next: FuzzingState)
        requires
            outer_count < self.havoc_outer(),
            inner_count <= self.havoc_inner(),
        ensures
            next == next_state(
                FuzzingState::StateHavoc((outer_count, inner_count)),
                0,
                self.havoc_outer(),
                self.havoc_inner(),
            ),
    {
        if inner_count < self.havoc_inner_times {
            return FuzzingState::StateHavoc((outer_count, inner_count + 1));
        }
        if outer_count == self.havoc_outer_times - 1 {
            // the budget is spent
            return FuzzingState::End;
        }
        FuzzingState::StateHavoc((outer_count + 1, 0))
    }

    /// Names the position to carry out after the one kept, without moving
    /// to it. From `Ready` the walk starts over for a seed of
    /// `input_seed_len` bytes; from `CalHavocTimes` a fresh havoc budget is
    /// drawn on the way.
    pub fn get_next_mutate_state(&mut self, input_seed_len: u64) -> (next: FuzzingState)
        requires
            old(self).wf(),
            old(self).state() is Ready ==> 8 * input_seed_len <= u64::MAX,
        ensures
            final(self).wf(),
            final(self).state() == old(self).state(),
            final(self).seed_len() == (if old(self).state() is Ready {
                input_seed_len as nat
            } else {
                old(self).seed_len()
            }),
            old(self).state() is CalHavocTimes ==> havoc_budget_valid(
                final(self).havoc_outer(),
                final(self).havoc_inner(),
            ),
            !(old(self).state() is CalHavocTimes) ==> final(self).havoc_outer() == old(
                self,
            ).havoc_outer() && final(self).havoc_inner() == old(self).havoc_inner(),
            next == final(self).upcoming(),
            state_valid(
                next,
                final(self).seed_len(),
                final(self).havoc_outer(),
                final(self).havoc_inner(),
            ),
    {
        match self.mutate_state {
            // a new seed: take its length and go on to selecting
            FuzzingState::Ready => {
                self.set_seed_len(input_seed_len);
                FuzzingState::Select
            },
            FuzzingState::Select => self.state_select_next(self.seed_len),
            FuzzingState::CalHavocTimes => {
                self.calculate_havoc_outer_times();
                self.calculate_havoc_inner_times();
                self.state_cal_havoc_next()
            },
            FuzzingState::StateFlip1(i) => self.state_flip1_next(self.seed_len, i),
            FuzzingState::StateFlip2(i) => self.state_flip2_next(self.seed_len, i),
            FuzzingState::StateFlip4(i) => self.state_flip4_next(self.seed_len, i),
            FuzzingState::StateFlip8(i) => self.state_flip8_next(self.seed_len, i),
            FuzzingState::StateFlip16(i) => self.state_flip16_next(self.seed_len, i),
            FuzzingState::StateFlip32(i) => self.state_flip32_next(self.seed_len, i),
            FuzzingState::StateAddArith8((i, arith_j)) => self.state_arith8_add_next(
                self.seed_len,
                i,
                arith_j,
            ),
            FuzzingState::StateSubArith8((i, arith_j)) => self.state_arith8_sub_next(
                self.seed_len,
                i,
                arith_j,
            ),
            FuzzingState::StateAddArith16((i, arith_j)) => self.state_arith16_add_next(
                self.seed_len,
                i,
                arith_j,
            ),
            FuzzingState::StateSubArith16((i, arith_j)) => self.state_arith16_sub_next(
                self.seed_len,
                i,
                arith_j,
            ),
            FuzzingState::StateAddArith16AnotherEndian((i, arith_j)) => {
                self.state_arith16_add_another_endian_next(self.seed_len, i, arith_j)
            },
            FuzzingState::StateSubArith16AnotherEndian((i, arith_j)) => {
                self.state_arith16_sub_another_endian_next(self.seed_len, i, arith_j)
            },
            FuzzingState::StateAddArith32((i, arith_j)) => self.state_arith32_add_next(
                self.seed_len,
                i,
                arith_j,
            ),
            FuzzingState::StateSubArith32((i, arith_j)) => self.state_arith32_sub_next(
                self.seed_len,
                i,
                arith_j,
            ),
            FuzzingState::StateAddArith32AnotherEndian((i, arith_j)) => {
                self.state_arith32_add_another_endian_next(self.seed_len, i, arith_j)
            },
            FuzzingState::StateSubArith32AnotherEndian((i, arith_j)) => {
                self.state_arith32_sub_another_endian_next(self.seed_len, i, arith_j)
            },
            FuzzingState::StateInterest8((i, index_count)) => self.state_interesting8_next(
                self.seed_len,
                i,
                index_count,
            ),
            FuzzingState::StateInterest16((i, index_count)) => self.state_interesting16_next(
                self.seed_len,
                i,
                index_count,
            ),
            FuzzingState::StateInterest16AnotherEndian((i, index_count)) => {
                self.state_interesting16_another_endian_next(self.seed_len, i, index_count)
            },
            FuzzingState::StateInterest32((i, index_count)) => self.state_interesting32_next(
                self.seed_len,
                i,
                index_count,
            ),
            FuzzingState::StateInterest32AnotherEndian((i, index_count)) => {
                self.state_interesting32_another_endian_next(self.seed_len, i, index_count)
            },
            FuzzingState::StateHavoc((outer_cnt, inner_cnt)) => self.state_havoc_next(
                outer_cnt,
                inner_cnt,
            ),
            FuzzingState::End => FuzzingState::Ready,
        }
    }

    /// Records `next_state` as carried out.
    pub fn change_to_next_state(&mut self, next_state: FuzzingState)
        requires
            8 * old(self).seed_len() <= u64::MAX,
            state_valid(
                next_state,
                old(self).seed_len(),
                old(self).havoc_outer(),
                old(self).havoc_inner(),
            ),
        ensures
            final(self).wf(),
            final(self).state() == next_state,
            final(self).seed_len() == old(self).seed_len(),
            final(self).havoc_outer() == old(self).havoc_outer(),
            final(self).havoc_inner() == old(self).havoc_inner(),
    {
        self.mutate_state = next_state;
    }
}

} // verus!
