//! The library's single source of randomness.

use vstd::prelude::*;

verus! {

/// Relies on rand::random_range over `0..n`: it returns a uniformly random
/// value of the half-open range, and panics only when the range is empty,
/// which the precondition rules out. Nothing more is assumed of the draw
/// than its bound.
#[verifier::external_body]
pub(crate) fn random_below(n: u32) -> (r: u32)
    requires
        n > 0,
    ensures
        r < n,
{
    rand::random_range(0..n)
}

} // verus!
