//! The library's single source of randomness.
//!
//! Every stochastic rule of the simulation — baddie jumps, grab chances,
//! hold durations, level placement — draws an integer below a bound from
//! the thread-local generator and feeds it to a deterministic, verified
//! decision function.

use vstd::prelude::*;

use rand::RngExt;

verus! {

/// A uniformly random integer in `[0, n)`.
///
/// Relies on `rand::RngExt::random_range` over the half-open range `0..n`,
/// which returns a value of the range; the range is non-empty because
/// `n > 0`.  Nothing else is promised of the draw: callers state what
/// holds of every outcome.
#[verifier::external_body]
pub(crate) fn random_below(n: u32) -> (r: u32)
    requires
        n > 0,
    ensures
        r < n,
{
    rand::rng().random_range(0..n)
}

} // verus!
