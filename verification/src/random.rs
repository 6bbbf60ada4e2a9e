use rand::Rng;
use vstd::prelude::*;

verus! {

/// A number drawn at random from `low..high`.
///
/// Calls `rand::Rng::gen_range` on `rand::thread_rng()`; it panics on an empty
/// range, which the `requires` leaves out. The contract claims only that the
/// number lies in the range: which number comes out is chance.
#[verifier::external_body]
pub(crate) fn random_in(low: u32, high: u32) -> (r: u32)
    requires
        low < high,
    ensures
        low <= r < high,
{
    rand::thread_rng().gen_range(low..high)
}

} // verus!
