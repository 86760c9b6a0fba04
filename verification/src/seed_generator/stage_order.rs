//! How many positions the walk through the stages takes, and where in it
//! each position stands.

use vstd::prelude::*;
use crate::config::{ARITH_MAX, INTERESTING_16_CNT, INTERESTING_32_CNT, INTERESTING_8_CNT};
use crate::seed_generator::state_parser::{
    bit_positions, byte_positions, havoc_budget_valid, next_state, state_valid, FuzzingState,
};

verus! {

/// Number of the stage of `state`, counted from `Ready` as stage 0 to `End`
/// as stage 25.
pub open spec fn stage_of(state: FuzzingState) -> int {
    match state {
        FuzzingState::Ready => 0,
        FuzzingState::Select => 1,
        FuzzingState::CalHavocTimes => 2,
        FuzzingState::StateFlip1(_) => 3,
        FuzzingState::StateFlip2(_) => 4,
        FuzzingState::StateFlip4(_) => 5,
        FuzzingState::StateFlip8(_) => 6,
        FuzzingState::StateFlip16(_) => 7,
        FuzzingState::StateFlip32(_) => 8,
        FuzzingState::StateAddArith8(_) => 9,
        FuzzingState::StateSubArith8(_) => 10,
        FuzzingState::StateAddArith16(_) => 11,
        FuzzingState::StateSubArith16(_) => 12,
        FuzzingState::StateAddArith16AnotherEndian(_) => 13,
        FuzzingState::StateSubArith16AnotherEndian(_) => 14,
        FuzzingState::StateAddArith32(_) => 15,
        FuzzingState::StateSubArith32(_) => 16,
        FuzzingState::StateAddArith32AnotherEndian(_) => 17,
        FuzzingState::StateSubArith32AnotherEndian(_) => 18,
        FuzzingState::StateInterest8(_) => 19,
        FuzzingState::StateInterest16(_) => 20,
        FuzzingState::StateInterest16AnotherEndian(_) => 21,
        FuzzingState::StateInterest32(_) => 22,
        FuzzingState::StateInterest32AnotherEndian(_) => 23,
        FuzzingState::StateHavoc(_) => 24,
        FuzzingState::End => 25,
    }
}

/// The stage after the last one.
pub open spec fn stage_count() -> int {
    26
}

/// Number of positions of the havoc stage: every round has the tweaks
/// numbered from 0 to `inner`.
#[verifier::opaque]
pub open spec fn havoc_steps(outer: nat, inner: nat) -> nat {
    outer * (inner + 1)
}

/// Where tweak `tweak` of round `round` stands within the havoc stage.
#[verifier::opaque]
pub open spec fn havoc_index(round: nat, tweak: nat, inner: nat) -> nat {
    round * (inner + 1) + tweak
}

/// Number of positions of stage number `stage` for a seed of `len` bytes
/// with the havoc budget `outer`, `inner`: one for each bit or byte offset
/// that leaves room for the stage's width, times the number of deltas
/// below `ARITH_MAX` or of entries of the stage's table of interesting
/// values; for havoc, one more than `inner` for each round. An
/// empty seed has only `Ready`, `Select` and `End`.
pub open spec fn stage_len(stage: int, len: nat, outer: nat, inner: nat) -> nat {
    if stage == 0 {
        1
    } else if stage == 1 {
        1
    } else if stage == 2 {
        if len >= 1 {
            1
        } else {
            0
        }
    } else if stage == 3 {
        bit_positions(len, 1)
    } else if stage == 4 {
        bit_positions(len, 2)
    } else if stage == 5 {
        bit_positions(len, 4)
    } else if stage == 6 {
        byte_positions(len, 1)
    } else if stage == 7 {
        byte_positions(len, 2)
    } else if stage == 8 {
        byte_positions(len, 4)
    } else if stage == 9 {
        ARITH_MAX as nat * byte_positions(len, 1)
    } else if stage == 10 {
        ARITH_MAX as nat * byte_positions(len, 1)
    } else if stage == 11 {
        ARITH_MAX as nat * byte_positions(len, 2)
    } else if stage == 12 {
        ARITH_MAX as nat * byte_positions(len, 2)
    } else if stage == 13 {
        ARITH_MAX as nat * byte_positions(len, 2)
    } else if stage == 14 {
        ARITH_MAX as nat * byte_positions(len, 2)
    } else if stage == 15 {
        ARITH_MAX as nat * byte_positions(len, 4)
    } else if stage == 16 {
        ARITH_MAX as nat * byte_positions(len, 4)
    } else if stage == 17 {
        ARITH_MAX as nat * byte_positions(len, 4)
    } else if stage == 18 {
        ARITH_MAX as nat * byte_positions(len, 4)
    } else if stage == 19 {
        INTERESTING_8_CNT as nat * byte_positions(len, 1)
    } else if stage == 20 {
        INTERESTING_16_CNT as nat * byte_positions(len, 2)
    } else if stage == 21 {
        INTERESTING_16_CNT as nat * byte_positions(len, 2)
    } else if stage == 22 {
        INTERESTING_32_CNT as nat * byte_positions(len, 4)
    } else if stage == 23 {
        INTERESTING_32_CNT as nat * byte_positions(len, 4)
    } else if stage == 24 {
        if len >= 1 {
            havoc_steps(outer, inner)
        } else {
            0
        }
    } else if stage == 25 {
        1
    } else {
        0
    }
}

/// Number of positions in the stages before stage number `stage`.
#[verifier::opaque]
pub open spec fn stage_start(stage: int, len: nat, outer: nat, inner: nat) -> nat
    decreases stage,
{
    if stage <= 0 {
        0
    } else {
        stage_start(stage - 1, len, outer, inner) + stage_len(stage - 1, len, outer, inner)
    }
}

/// Where `state` stands within its stage: the parameter runs fastest.
pub open spec fn index_in_stage(state: FuzzingState, inner: nat) -> nat {
    match state {
        FuzzingState::Ready => 0,
        FuzzingState::Select => 0,
        FuzzingState::CalHavocTimes => 0,
        FuzzingState::StateFlip1(i) => i as nat,
        FuzzingState::StateFlip2(i) => i as nat,
        FuzzingState::StateFlip4(i) => i as nat,
        FuzzingState::StateFlip8(i) => i as nat,
        FuzzingState::StateFlip16(i) => i as nat,
        FuzzingState::StateFlip32(i) => i as nat,
        FuzzingState::StateAddArith8((i, j)) => ARITH_MAX as nat * i as nat + j as nat,
        FuzzingState::StateSubArith8((i, j)) => ARITH_MAX as nat * i as nat + j as nat,
        FuzzingState::StateAddArith16((i, j)) => ARITH_MAX as nat * i as nat + j as nat,
        FuzzingState::StateSubArith16((i, j)) => ARITH_MAX as nat * i as nat + j as nat,
        FuzzingState::StateAddArith16AnotherEndian((i, j)) => ARITH_MAX as nat * i as nat + j as nat,
        FuzzingState::StateSubArith16AnotherEndian((i, j)) => ARITH_MAX as nat * i as nat + j as nat,
        FuzzingState::StateAddArith32((i, j)) => ARITH_MAX as nat * i as nat + j as nat,
        FuzzingState::StateSubArith32((i, j)) => ARITH_MAX as nat * i as nat + j as nat,
        FuzzingState::StateAddArith32AnotherEndian((i, j)) => ARITH_MAX as nat * i as nat + j as nat,
        FuzzingState::StateSubArith32AnotherEndian((i, j)) => ARITH_MAX as nat * i as nat + j as nat,
        FuzzingState::StateInterest8((i, k)) => INTERESTING_8_CNT as nat * i as nat + k as nat,
        FuzzingState::StateInterest16((i, k)) => INTERESTING_16_CNT as nat * i as nat + k as nat,
        FuzzingState::StateInterest16AnotherEndian((i, k)) => INTERESTING_16_CNT as nat * i as nat + k as nat,
        FuzzingState::StateInterest32((i, k)) => INTERESTING_32_CNT as nat * i as nat + k as nat,
        FuzzingState::StateInterest32AnotherEndian((i, k)) => INTERESTING_32_CNT as nat * i as nat + k as nat,
        FuzzingState::StateHavoc((round, tweak)) => havoc_index(round as nat, tweak as nat, inner),
        FuzzingState::End => 0,
    }
}

/// Number of positions that come before `state` in the walk from `Ready`.
pub open spec fn rank(state: FuzzingState, len: nat, outer: nat, inner: nat) -> nat {
    stage_start(stage_of(state), len, outer, inner) + index_in_stage(state, inner)
}

/// Number of steps from `Ready` to `End`.
pub open spec fn total_steps(len: nat, outer: nat, inner: nat) -> nat {
    stage_start(25, len, outer, inner)
}

/// A stage starts where the one before it ends.
pub proof fn lemma_stage_step(stage: int, len: nat, outer: nat, inner: nat)
    requires
        0 <= stage,
    ensures
        stage_start(stage + 1, len, outer, inner) == stage_start(stage, len, outer, inner)
            + stage_len(stage, len, outer, inner),
{
    reveal_with_fuel(stage_start, 2);
}

/// Later stages start later.
pub proof fn lemma_stage_start_monotone(from: int, to: int, len: nat, outer: nat, inner: nat)
    requires
        0 <= from <= to,
    ensures
        stage_start(from, len, outer, inner) <= stage_start(to, len, outer, inner),
    decreases to - from,
{
    if from < to {
        lemma_stage_start_monotone(from, to - 1, len, outer, inner);
        lemma_stage_step(to - 1, len, outer, inner);
    }
}

/// Stages without positions take no steps.
pub proof fn lemma_empty_stages(from: int, to: int, len: nat, outer: nat, inner: nat)
    requires
        0 <= from <= to,
        forall|stage: int| from <= stage < to ==> stage_len(stage, len, outer, inner) == 0,
    ensures
        stage_start(from, len, outer, inner) == stage_start(to, len, outer, inner),
    decreases to - from,
{
    if from < to {
        lemma_empty_stages(from, to - 1, len, outer, inner);
        lemma_stage_step(to - 1, len, outer, inner);
    }
}

/// The tweaks of the havoc stage stand one after the other, round by round.
pub proof fn lemma_havoc_index(round: nat, tweak: nat, outer: nat, inner: nat)
    requires
        round < outer,
        tweak <= inner,
    ensures
        havoc_index(0, 0, inner) == 0,
        havoc_index(round, tweak, inner) < havoc_steps(outer, inner),
        tweak < inner ==> havoc_index(round, tweak + 1, inner) == havoc_index(round, tweak, inner)
            + 1,
        havoc_index(round + 1, 0, inner) == havoc_index(round, inner, inner) + 1,
        havoc_index(round, inner, inner) + 1 <= havoc_steps(outer, inner),
        round + 1 == outer ==> havoc_index(round, inner, inner) + 1 == havoc_steps(outer, inner),
{
    reveal(havoc_index);
    reveal(havoc_steps);
    assert((round + 1) * (inner + 1) == round * (inner + 1) + inner + 1) by (nonlinear_arith);
    assert((round + 1) * (inner + 1) <= outer * (inner + 1)) by (nonlinear_arith)
        requires
            round + 1 <= outer,
    ;
    assert(0 * (inner + 1) == 0) by (nonlinear_arith);
}

/// The positions of a stage stand between the start of that stage and the
/// start of the next one.
pub proof fn lemma_rank_within_stage(state: FuzzingState, len: nat, outer: nat, inner: nat)
    requires
        state_valid(state, len, outer, inner),
    ensures
        stage_start(stage_of(state), len, outer, inner) <= rank(state, len, outer, inner),
        index_in_stage(state, inner) < stage_len(stage_of(state), len, outer, inner),
        rank(state, len, outer, inner) < stage_start(stage_of(state) + 1, len, outer, inner),
{
    lemma_stage_step(stage_of(state), len, outer, inner);
    if let FuzzingState::StateHavoc((round, tweak)) = state {
        lemma_havoc_index(round as nat, tweak as nat, outer, inner);
    }
}

/// No position stands after `End`.
pub proof fn lemma_rank_at_most_total(state: FuzzingState, len: nat, outer: nat, inner: nat)
    requires
        state_valid(state, len, outer, inner),
    ensures
        rank(state, len, outer, inner) <= total_steps(len, outer, inner),
        rank(state, len, outer, inner) == total_steps(len, outer, inner) <==> state is End,
{
    lemma_rank_within_stage(state, len, outer, inner);
    if !(state is End) {
        lemma_stage_start_monotone(stage_of(state) + 1, 25, len, outer, inner);
    }
}

proof fn lemma_rank_step_start(state: FuzzingState, len: nat, outer: nat, inner: nat)
    requires
        state_valid(state, len, outer, inner),
        havoc_budget_valid(outer, inner),
        8 * len <= u64::MAX,
        stage_of(state) <= 2,
    ensures
        state_valid(next_state(state, len, outer, inner), len, outer, inner),
        rank(next_state(state, len, outer, inner), len, outer, inner) == rank(
            state,
            len,
            outer,
            inner,
        ) + 1,
{
    let next = next_state(state, len, outer, inner);
    let stage = stage_of(state);
    if stage_of(next) != stage {
        lemma_stage_step(stage, len, outer, inner);
        lemma_empty_stages(stage + 1, stage_of(next), len, outer, inner);
    }
}

proof fn lemma_rank_step_flip(state: FuzzingState, len: nat, outer: nat, inner: nat)
    requires
        state_valid(state, len, outer, inner),
        havoc_budget_valid(outer, inner),
        8 * len <= u64::MAX,
        3 <= stage_of(state) <= 8,
    ensures
        state_valid(next_state(state, len, outer, inner), len, outer, inner),
        rank(next_state(state, len, outer, inner), len, outer, inner) == rank(
            state,
            len,
            outer,
            inner,
        ) + 1,
{
    let next = next_state(state, len, outer, inner);
    let stage = stage_of(state);
    if stage_of(next) != stage {
        lemma_stage_step(stage, len, outer, inner);
        lemma_empty_stages(stage + 1, stage_of(next), len, outer, inner);
    }
}

proof fn lemma_rank_step_arith8(state: FuzzingState, len: nat, outer: nat, inner: nat)
    requires
        state_valid(state, len, outer, inner),
        havoc_budget_valid(outer, inner),
        8 * len <= u64::MAX,
        9 <= stage_of(state) <= 10,
    ensures
        state_valid(next_state(state, len, outer, inner), len, outer, inner),
        rank(next_state(state, len, outer, inner), len, outer, inner) == rank(
            state,
            len,
            outer,
            inner,
        ) + 1,
{
    let next = next_state(state, len, outer, inner);
    let stage = stage_of(state);
    if stage_of(next) != stage {
        lemma_stage_step(stage, len, outer, inner);
        lemma_empty_stages(stage + 1, stage_of(next), len, outer, inner);
    }
}

proof fn lemma_rank_step_arith16(state: FuzzingState, len: nat, outer: nat, inner: nat)
    requires
        state_valid(state, len, outer, inner),
        havoc_budget_valid(outer, inner),
        8 * len <= u64::MAX,
        11 <= stage_of(state) <= 14,
    ensures
        state_valid(next_state(state, len, outer, inner), len, outer, inner),
        rank(next_state(state, len, outer, inner), len, outer, inner) == rank(
            state,
            len,
            outer,
            inner,
        ) + 1,
{
    let next = next_state(state, len, outer, inner);
    let stage = stage_of(state);
    if stage_of(next) != stage {
        lemma_stage_step(stage, len, outer, inner);
        lemma_empty_stages(stage + 1, stage_of(next), len, outer, inner);
    }
}

proof fn lemma_rank_step_arith32(state: FuzzingState, len: nat, outer: nat, inner: nat)
    requires
        state_valid(state, len, outer, inner),
        havoc_budget_valid(outer, inner),
        8 * len <= u64::MAX,
        15 <= stage_of(state) <= 18,
    ensures
        state_valid(next_state(state, len, outer, inner), len, outer, inner),
        rank(next_state(state, len, outer, inner), len, outer, inner) == rank(
            state,
            len,
            outer,
            inner,
        ) + 1,
{
    let next = next_state(state, len, outer, inner);
    let stage = stage_of(state);
    if stage_of(next) != stage {
        lemma_stage_step(stage, len, outer, inner);
        lemma_empty_stages(stage + 1, stage_of(next), len, outer, inner);
    }
}

proof fn lemma_rank_step_interest(state: FuzzingState, len: nat, outer: nat, inner: nat)
    requires
        state_valid(state, len, outer, inner),
        havoc_budget_valid(outer, inner),
        8 * len <= u64::MAX,
        19 <= stage_of(state) <= 23,
    ensures
        state_valid(next_state(state, len, outer, inner), len, outer, inner),
        rank(next_state(state, len, outer, inner), len, outer, inner) == rank(
            state,
            len,
            outer,
            inner,
        ) + 1,
{
    lemma_havoc_index(0, 0, outer, inner);
    let next = next_state(state, len, outer, inner);
    let stage = stage_of(state);
    if stage_of(next) != stage {
        lemma_stage_step(stage, len, outer, inner);
        lemma_empty_stages(stage + 1, stage_of(next), len, outer, inner);
    }
}

proof fn lemma_rank_step_havoc(state: FuzzingState, len: nat, outer: nat, inner: nat)
    requires
        state_valid(state, len, outer, inner),
        havoc_budget_valid(outer, inner),
        8 * len <= u64::MAX,
        state is StateHavoc,
    ensures
        state_valid(next_state(state, len, outer, inner), len, outer, inner),
        rank(next_state(state, len, outer, inner), len, outer, inner) == rank(
            state,
            len,
            outer,
            inner,
        ) + 1,
{
    if let FuzzingState::StateHavoc((round, tweak)) = state {
        lemma_havoc_index(round as nat, tweak as nat, outer, inner);
        lemma_stage_step(24, len, outer, inner);
    }
}

/// A step of the walk leads to the position that stands next.
pub proof fn lemma_rank_step(state: FuzzingState, len: nat, outer: nat, inner: nat)
    requires
        state_valid(state, len, outer, inner),
        havoc_budget_valid(outer, inner),
        8 * len <= u64::MAX,
        !(state is End),
    ensures
        state_valid(next_state(state, len, outer, inner), len, outer, inner),
        rank(next_state(state, len, outer, inner), len, outer, inner) == rank(
            state,
            len,
            outer,
            inner,
        ) + 1,
{
    let stage = stage_of(state);
    if stage <= 2 {
        lemma_rank_step_start(state, len, outer, inner);
    } else if stage <= 8 {
        lemma_rank_step_flip(state, len, outer, inner);
    } else if stage <= 10 {
        lemma_rank_step_arith8(state, len, outer, inner);
    } else if stage <= 14 {
        lemma_rank_step_arith16(state, len, outer, inner);
    } else if stage <= 18 {
        lemma_rank_step_arith32(state, len, outer, inner);
    } else if stage <= 23 {
        lemma_rank_step_interest(state, len, outer, inner);
    } else {
        lemma_rank_step_havoc(state, len, outer, inner);
    }
}

proof fn lemma_havoc_index_injective(
    round_a: nat,
    tweak_a: nat,
    round_b: nat,
    tweak_b: nat,
    inner: nat,
)
    requires
        tweak_a <= inner,
        tweak_b <= inner,
        havoc_index(round_a, tweak_a, inner) == havoc_index(round_b, tweak_b, inner),
    ensures
        round_a == round_b,
        tweak_a == tweak_b,
{
    reveal(havoc_index);
    if round_a < round_b {
        assert(round_b * (inner + 1) >= round_a * (inner + 1) + inner + 1) by (nonlinear_arith)
            requires
                round_a + 1 <= round_b,
        ;
    }
    if round_b < round_a {
        assert(round_a * (inner + 1) >= round_b * (inner + 1) + inner + 1) by (nonlinear_arith)
            requires
                round_b + 1 <= round_a,
        ;
    }
}

/// No two positions of the walk stand at the same place.
pub proof fn lemma_rank_injective(
    a: FuzzingState,
    b: FuzzingState,
    len: nat,
    outer: nat,
    inner: nat,
)
    requires
        state_valid(a, len, outer, inner),
        state_valid(b, len, outer, inner),
        rank(a, len, outer, inner) == rank(b, len, outer, inner),
    ensures
        a == b,
{
    lemma_rank_within_stage(a, len, outer, inner);
    lemma_rank_within_stage(b, len, outer, inner);
    if stage_of(a) < stage_of(b) {
        lemma_stage_start_monotone(stage_of(a) + 1, stage_of(b), len, outer, inner);
    }
    if stage_of(b) < stage_of(a) {
        lemma_stage_start_monotone(stage_of(b) + 1, stage_of(a), len, outer, inner);
    }
    assert(stage_of(a) == stage_of(b));
    if let FuzzingState::StateHavoc((round_a, tweak_a)) = a {
        if let FuzzingState::StateHavoc((round_b, tweak_b)) = b {
            lemma_havoc_index_injective(
                round_a as nat,
                tweak_a as nat,
                round_b as nat,
                tweak_b as nat,
                inner,
            );
        }
    }
}

/// The position reached from `Ready` in `n` steps.
pub open spec fn state_after(len: nat, outer: nat, inner: nat, n: nat) -> FuzzingState
    decreases n,
{
    if n == 0 {
        FuzzingState::Ready
    } else {
        next_state(state_after(len, outer, inner, (n - 1) as nat), len, outer, inner)
    }
}

/// The walk from `Ready` takes a new position with every step and reaches
/// `End` after exactly `total_steps` steps, not earlier.
pub proof fn lemma_walk(len: nat, outer: nat, inner: nat, n: nat)
    requires
        havoc_budget_valid(outer, inner),
        8 * len <= u64::MAX,
        n <= total_steps(len, outer, inner),
    ensures
        state_valid(state_after(len, outer, inner, n), len, outer, inner),
        rank(state_after(len, outer, inner, n), len, outer, inner) == n,
        state_after(len, outer, inner, n) is End <==> n == total_steps(len, outer, inner),
    decreases n,
{
    if n > 0 {
        lemma_walk(len, outer, inner, (n - 1) as nat);
        lemma_rank_step(state_after(len, outer, inner, (n - 1) as nat), len, outer, inner);
    } else {
        reveal(stage_start);
    }
    lemma_rank_at_most_total(state_after(len, outer, inner, n), len, outer, inner);
}

/// Every valid position is visited by the walk, at the step that its rank
/// names.
pub proof fn lemma_walk_visits(state: FuzzingState, len: nat, outer: nat, inner: nat)
    requires
        havoc_budget_valid(outer, inner),
        8 * len <= u64::MAX,
        state_valid(state, len, outer, inner),
    ensures
        state_after(len, outer, inner, rank(state, len, outer, inner)) == state,
{
    lemma_rank_at_most_total(state, len, outer, inner);
    let n = rank(state, len, outer, inner);
    lemma_walk(len, outer, inner, n);
    lemma_rank_injective(state_after(len, outer, inner, n), state, len, outer, inner);
}

/// The steps from the start of a stage to the start of the next one are
/// spent in that stage: the walk visits exactly `stage_len` positions of
/// each stage, in the order of the stages.
pub proof fn lemma_walk_stage(len: nat, outer: nat, inner: nat, stage: int, n: nat)
    requires
        havoc_budget_valid(outer, inner),
        8 * len <= u64::MAX,
        0 <= stage < stage_count(),
        stage_start(stage, len, outer, inner) <= n < stage_start(stage + 1, len, outer, inner),
    ensures
        stage_of(state_after(len, outer, inner, n)) == stage,
        index_in_stage(state_after(len, outer, inner, n), inner) == n - stage_start(
            stage,
            len,
            outer,
            inner,
        ),
{
    if stage < 25 {
        lemma_stage_start_monotone(stage + 1, 25, len, outer, inner);
    } else {
        lemma_stage_step(25, len, outer, inner);
    }
    lemma_walk(len, outer, inner, n);
    let state = state_after(len, outer, inner, n);
    lemma_rank_within_stage(state, len, outer, inner);
    if stage_of(state) < stage {
        lemma_stage_start_monotone(stage_of(state) + 1, stage, len, outer, inner);
    }
    if stage < stage_of(state) {
        lemma_stage_start_monotone(stage + 1, stage_of(state), len, outer, inner);
    }
}

/// An empty seed is done at once: `Ready`, `Select`, `End`.
pub proof fn lemma_walk_empty_seed(outer: nat, inner: nat)
    ensures
        total_steps(0, outer, inner) == 2,
        state_after(0, outer, inner, 1) is Select,
        state_after(0, outer, inner, 2) is End,
{
    lemma_stage_step(0, 0, outer, inner);
    lemma_stage_step(1, 0, outer, inner);
    lemma_empty_stages(2, 25, 0, outer, inner);
    reveal(stage_start);
    reveal_with_fuel(state_after, 3);
}

/// The counts of the flip stages, written out: a seed of `len` bytes has
/// `8 * len` one-bit, `8 * len - 1` two-bit and `8 * len - 3` four-bit flip
/// positions, and `len`, `len - 1` and `len - 3` positions for the flips of
/// one, two and four bytes, the latter two only where that many bytes are
/// there.
pub proof fn lemma_flip_counts(len: nat, outer: nat, inner: nat)
    requires
        len >= 1,
    ensures
        stage_len(3, len, outer, inner) + stage_len(4, len, outer, inner) + stage_len(
            5,
            len,
            outer,
            inner,
        ) == 8 * len + (8 * len - 1) + (8 * len - 3),
        stage_len(6, len, outer, inner) + stage_len(7, len, outer, inner) + stage_len(
            8,
            len,
            outer,
            inner,
        ) == len + (if len >= 2 {
            len - 1
        } else {
            0
        }) + (if len >= 4 {
            len - 3
        } else {
            0
        }),
{
}

/// Number of steps from `Ready` to the first havoc position, written out
/// for a seed of four bytes or more: the three steps to the first bit
/// flip, then a position for every bit flip, byte flip, delta and
/// interesting value.
pub proof fn lemma_steps_before_havoc(len: nat, outer: nat, inner: nat)
    requires
        len >= 4,
    ensures
        stage_start(24, len, outer, inner) == 3 + (24 * len - 4) + (3 * len - 4) + 70 * len + 140
            * (len - 1) + 140 * (len - 3) + 9 * len + 38 * (len - 1) + 54 * (len - 3),
{
    assert(stage_start(0, len, outer, inner) == 0) by {
        reveal(stage_start);
    }
    lemma_stage_start_value(8, len, outer, inner);
    lemma_stage_start_value(16, len, outer, inner);
    lemma_stage_start_value(24, len, outer, inner);
}

/// The start of a stage is the start of the eighth stage before it plus the
/// lengths of the eight stages between.
proof fn lemma_stage_start_value(stage: int, len: nat, outer: nat, inner: nat)
    requires
        stage >= 8,
    ensures
        stage_start(stage, len, outer, inner) == stage_start(stage - 8, len, outer, inner)
            + stage_len(stage - 8, len, outer, inner) + stage_len(stage - 7, len, outer, inner)
            + stage_len(stage - 6, len, outer, inner) + stage_len(stage - 5, len, outer, inner)
            + stage_len(stage - 4, len, outer, inner) + stage_len(stage - 3, len, outer, inner)
            + stage_len(stage - 2, len, outer, inner) + stage_len(stage - 1, len, outer, inner),
{
    reveal_with_fuel(stage_start, 9);
}

} // verus!
