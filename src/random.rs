//! Draws from the thread-local random generator.
use vstd::prelude::*;

verus! {

/// Relies on `rand::random_range` over `0..n`: a value below `n`; it panics on an
/// empty range, which `requires` leaves out.
#[verifier::external_body]
pub(crate) fn random_below(n: usize) -> (r: usize)
    requires
        n > 0,
    ensures
        r < n,
{
    rand::random_range(0..n)
}

/// Relies on `rand::random_ratio`: true with probability `numerator / denominator`,
/// always true when they are equal and never when the numerator is zero; it panics
/// when the denominator is zero or below the numerator, which `requires` leaves out.
#[verifier::external_body]
pub(crate) fn random_ratio(numerator: u32, denominator: u32) -> (r: bool)
    requires
        0 < denominator,
        numerator <= denominator,
    ensures
        numerator == 0 ==> !r,
        numerator == denominator ==> r,
{
    rand::random_ratio(numerator, denominator)
}

} // verus!
