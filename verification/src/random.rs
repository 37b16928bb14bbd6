//! The random source of the generator, which is `rand`'s thread-local generator.

use vstd::prelude::*;
use rand::Rng;

verus! {

/// Calls `Rng::gen_range` on `rand::thread_rng()` with the range from zero
/// up to, and without, `bound`. The call panics on an empty range, so `bound`
/// is positive; all that is known of the number is that it lies in the range.
#[verifier::external_body]
pub(crate) fn random_below(bound: usize) -> (r: usize)
    requires
        bound > 0,
    ensures
        r < bound,
{
    rand::thread_rng().gen_range(0..bound)
}

} // verus!
