use vstd::prelude::*;
use rand::Rng;

verus! {

/// Calls `rand::thread_rng().gen_range(low..high)`: a number drawn by the
/// thread-local generator from the half-open range `[low, high)`. `gen_range`
/// asserts that the range is not empty, so `low < high` is required. Which
/// number comes out is chance; only the range is stated.
#[verifier::external_body]
pub(crate) fn random_index(low: usize, high: usize) -> (r: usize)
    requires
        low < high,
    ensures
        low <= r < high,
{
    rand::thread_rng().gen_range(low..high)
}

} // verus!
