//! Random draws, delegated to the `rand` crate.

use vstd::prelude::*;

verus! {

/// Relies on rand::random_range: it returns a value of the given half-open
/// range, and panics only on an empty range, which the precondition rules
/// out. Nothing more is assumed of the draw.
#[verifier::external_body]
pub fn random_in_range(lo: u64, hi: u64) -> (r: u64)
    requires
        lo < hi,
    ensures
        lo <= r < hi,
{
    rand::random_range(lo..hi)
}

} // verus!
