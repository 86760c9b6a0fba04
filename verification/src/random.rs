//! The source of randomness: the `rand` crate's thread-local generator.
//!
//! Nothing here is proved. The two functions below hand a call on to `rand`,
//! and what they promise is taken from that crate's documentation.

use vstd::prelude::*;

verus! {

#[verifier::external_type_specification]
#[verifier::external_body]
pub struct ExThreadRng(rand::ThreadRng);

/// Calls `rand::thread_rng`, which hands out the calling thread's generator.
/// Nothing is claimed of the generator.
#[verifier::external_body]
pub(crate) fn thread_rng() -> rand::ThreadRng {
    rand::thread_rng()
}

/// Calls `rand::Rng::gen_range` on `u64` bounds. The crate documents that the
/// value lies in the half-open range from `low` to `high` and that the call
/// panics unless `low < high`; which value of the range comes back is left
/// open.
#[verifier::external_body]
pub(crate) fn gen_range(rng: &mut rand::ThreadRng, low: u64, high: u64) -> (value: u64)
    requires
        low < high,
    ensures
        low <= value < high,
{
    rand::Rng::gen_range(rng, low, high)
}

} // verus!
