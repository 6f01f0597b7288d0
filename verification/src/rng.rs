use vstd::prelude::*;

verus! {

/// Magnitude within which arguments are handed to the random draw. For
/// values this small the draw's `f64` arithmetic represents every argument
/// exactly, so the result cannot escape the closed interval.
pub const RAND_BOUND: i64 = 1_000_000_000_000;

/// Relies on `quad_rand::gen_range` for `i64`: it scales a 32-bit random
/// value into the requested interval through `f64` arithmetic and truncates
/// back to an integer. For arguments within `RAND_BOUND` the result lies in
/// the closed interval `[low, high]` (final rounding can reach the upper
/// end), but nothing else is promised of it: the draw is seeded process
/// state.
#[verifier::external_body]
pub(crate) fn gen_range_i64(low: i64, high: i64) -> (r: i64)
    requires
        -RAND_BOUND <= low <= high <= RAND_BOUND,
    ensures
        low <= r <= high,
{
    quad_rand::gen_range(low, high)
}

} // verus!
