//! The library's single injectable source of randomness: thin trusted
//! wrappers around the process-wide generator of the `rand` crate.

use vstd::prelude::*;

verus! {

/// Relies on rand::random_range: a draw from `0..n` lies below `n`;
/// the call panics only on an empty range, which the precondition rules
/// out.
#[verifier::external_body]
pub(crate) fn rand_index(n: usize) -> (r: usize)
    requires
        0 < n,
    ensures
        r < n,
{
    rand::random_range(0..n)
}

/// Relies on rand::random_range: a draw from `lo..=hi` lies in that
/// inclusive range; the call panics only on an empty range, which the
/// precondition rules out.
#[verifier::external_body]
pub(crate) fn rand_between(lo: u8, hi: u8) -> (r: u8)
    requires
        lo <= hi,
    ensures
        lo <= r <= hi,
{
    rand::random_range(lo..=hi)
}

/// Relies on rand::random: a coin flip.  Nothing can be promised of a
/// random value.
#[verifier::external_body]
pub(crate) fn rand_coin() -> bool {
    rand::random::<bool>()
}

} // verus!
