use vstd::prelude::*;

use rand::distributions::Distribution;

verus! {

/// Draws a uniformly random integer from the closed range `[lo, hi]`.
///
/// Relies on rand's `Uniform::new_inclusive` together with
/// `Distribution::sample` on `thread_rng`: the sampled value lies in the
/// closed range `[lo, hi]`. `new_inclusive` panics when `lo > hi`, which the
/// precondition rules out. Nothing more is assumed of the draw: callers are
/// verified for every value in the range.
#[verifier::external_body]
pub(crate) fn sample_inclusive(lo: u64, hi: u64) -> (r: u64)
    requires
        lo <= hi,
    ensures
        lo <= r <= hi,
{
    rand::distributions::Uniform::new_inclusive(lo, hi).sample(&mut rand::thread_rng())
}

} // verus!
