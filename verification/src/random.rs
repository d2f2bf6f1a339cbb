//! The pseudo-random source behind grid population.
//!
//! Nothing here is proved: each function is a thin call into `macroquad`, and
//! its contract is what the callers in this crate take on trust.

use vstd::prelude::*;

verus! {

/// Reseeds the process-wide generator through `macroquad::rand::srand`.
/// Nothing is claimed of the generator's state afterwards.
#[verifier::external_body]
pub(crate) fn seed_generator(seed: u64) {
    macroquad::rand::srand(seed)
}

/// One draw from `macroquad::rand::gen_range` with lower bound zero.
///
/// The generator scales a 32-bit draw `k` to `high * k / 2^32` in double
/// precision and truncates. With a lower bound of zero that product is
/// non-negative and stays strictly below `high`, so the truncated value lies
/// in `0..high`. Which value comes back is not claimed: it depends on the
/// generator's state.
#[verifier::external_body]
pub(crate) fn random_below(high: i32) -> (drawn: i32)
    requires
        0 < high,
    ensures
        0 <= drawn < high,
{
    macroquad::rand::gen_range(0, high)
}

} // verus!
