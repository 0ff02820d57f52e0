//! The one source of chance the game uses.

use rand::RngExt;
use vstd::prelude::*;

verus! {

/// Draws a number from `0` up to, but not including, `bound`.
///
/// Not verified: the body asks `rand::rng()` for the thread's generator and
/// calls `RngExt::random_range` on the half-open range `0..bound`. The contract
/// repeats what that method documents, that the value lies in the range, and
/// nothing more: which value comes is left to chance, and two calls may differ.
/// `random_range` panics on an empty range, so the bound must be positive.
/// (`rand::rng()` itself panics only if the operating system cannot seed it.)
#[verifier::external_body]
pub(crate) fn random_below(bound: i32) -> (value: i32)
    requires
        0 < bound,
    ensures
        0 <= value < bound,
{
    rand::rng().random_range(0..bound)
}

} // verus!
