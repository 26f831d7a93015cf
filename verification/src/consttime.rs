//! Constant-time comparisons, provided by the `consistenttime` crate.

use vstd::prelude::*;

verus! {

/// Calls `consistenttime::ct_u8_eq`, which compares two bytes without
/// branching.  Its source folds `0xff ^ (x ^ y)` down to its lowest bit, so
/// the answer is exactly whether the two bytes are equal.
#[verifier::external_body]
pub(crate) fn ct_u8_eq(x: u8, y: u8) -> (r: bool)
    ensures
        r == (x == y),
{
    consistenttime::ct_u8_eq(x, y)
}

/// Calls `consistenttime::ct_u8_slice_eq`, which compares two byte slices
/// while always walking the whole slice.  Its source answers `false` for
/// slices of different lengths and otherwise whether every byte agrees.
#[verifier::external_body]
pub(crate) fn ct_u8_slice_eq(x: &[u8], y: &[u8]) -> (r: bool)
    ensures
        r == (x@ == y@),
{
    consistenttime::ct_u8_slice_eq(x, y)
}

} // verus!
