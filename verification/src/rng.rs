//! The library's one source of randomness: the ball's launch velocity is
//! drawn from the process-wide generator.

use vstd::prelude::*;

verus! {

/// Relies on `rand::random_range`: a sample drawn from the half-open range
/// `lo..hi` lies in that range. An empty range would panic, so the
/// precondition leaves it out. Nothing more is promised: two calls on the
/// same arguments may differ.
#[verifier::external_body]
pub(crate) fn random_in_range(lo: i32, hi: i32) -> (r: i32)
    requires
        lo < hi,
    ensures
        lo <= r < hi,
{
    rand::random_range(lo..hi)
}

} // verus!
