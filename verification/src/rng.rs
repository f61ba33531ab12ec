//! Randomness primitives for the drift-path generator and the ball.
//!
//! Everything the engine proves holds for every value these functions can
//! return; nothing is assumed about their distribution.

use rand::Rng;
use vstd::prelude::*;

verus! {

/// Relies on `rand::Rng::gen_range` on the inclusive range `lo..=hi`
/// (via `rand::thread_rng`): the sampled value lies within that range.
/// The range must be non-empty, since `gen_range` panics on an empty range.
#[verifier::external_body]
pub(crate) fn rand_i64_between(lo: i64, hi: i64) -> (r: i64)
    requires
        lo <= hi,
    ensures
        lo <= r <= hi,
{
    rand::thread_rng().gen_range(lo..=hi)
}

/// Relies on `rand::random::<bool>()` for a fair coin; nothing is promised
/// about the outcome, and callers are verified for both.
#[verifier::external_body]
pub(crate) fn rand_coin() -> bool {
    rand::random()
}

} // verus!
