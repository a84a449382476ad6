//! The one place where the engine draws randomness from the outside.

use vstd::prelude::*;

verus! {

/// Relies on `rand::random_range` over a half-open `i64` range: it returns
/// a uniform draw in `[lo, hi)` and panics only on an empty range, which
/// the precondition rules out.
#[verifier::external_body]
pub(crate) fn random_in(lo: i64, hi: i64) -> (r: i64)
    requires
        lo < hi,
    ensures
        lo <= r < hi,
{
    rand::random_range(lo..hi)
}

} // verus!
