use vstd::prelude::*;

verus! {

/// Relies on `rand::random_range`: on the non-empty range `0..len` it
/// returns a uniformly sampled value of that range, so the result is
/// strictly below `len`.  (It panics on an empty range, which the
/// precondition rules out.)
#[verifier::external_body]
pub(crate) fn random_index_below(len: usize) -> (r: usize)
    requires
        len > 0,
    ensures
        r < len,
{
    rand::random_range(0..len)
}

} // verus!
