//! The one random draw the library makes.

use vstd::prelude::*;

verus! {

/// Relies on `rand::random_range`: a draw from `0..bound` is strictly
/// below the bound. The draw panics on an empty range, so the bound must
/// be positive.
#[verifier::external_body]
pub(crate) fn random_below(bound: u64) -> (r: u64)
    requires
        bound >= 1,
    ensures
        r < bound,
{
    rand::random_range(0..bound)
}

} // verus!
