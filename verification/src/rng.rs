//! The library's single source of randomness.

use vstd::prelude::*;

verus! {

/// Relies on rand's `Rng::gen_range` over the inclusive integer range
/// `lo..=hi`: with `lo <= hi` the range is non-empty (so the call does not
/// panic) and the sampled value lies within it.
#[verifier::external_body]
pub(crate) fn random_in_range(lo: i64, hi: i64) -> (r: i64)
    requires
        lo <= hi,
    ensures
        lo <= r <= hi,
{
    rand::Rng::gen_range(&mut rand::thread_rng(), lo..=hi)
}

} // verus!
