//! The one source of chance in the rules.

use vstd::prelude::*;
use rand::Rng;

verus! {

/// Draws an index below `bound` by calling `rand::Rng::gen_range` with the range
/// `0..bound` on the generator that `rand::thread_rng` returns.
///
/// Trusted: the draw lies in the range. Which index comes out is left open, and
/// two draws may differ. `gen_range` panics on an empty range, which `bound > 0`
/// rules out.
#[verifier::external_body]
pub(crate) fn random_index(bound: usize) -> (index: usize)
    requires
        bound > 0,
    ensures
        index < bound,
{
    rand::thread_rng().gen_range(0..bound)
}

} // verus!
