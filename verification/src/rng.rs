//! The one seam to the process-wide random generator.
//!
//! Every random choice the simulation makes (direction angles, sign flips,
//! respawn positions, bounce nudges) is drawn through `rand_range`, so the
//! contracts above it only ever state what holds of every possible outcome.
use rand::Rng;
use vstd::prelude::*;

verus! {

/// Relies on `rand::Rng::gen_range` over `lo..hi` on the thread-local
/// generator: it panics on an empty range and otherwise returns a uniformly
/// sampled value of the range, so the result always lies in `[lo, hi)`.
#[verifier::external_body]
pub(crate) fn rand_range(lo: i64, hi: i64) -> (r: i64)
    requires
        lo < hi,
    ensures
        lo <= r < hi,
{
    rand::thread_rng().gen_range(lo..hi)
}

} // verus!
