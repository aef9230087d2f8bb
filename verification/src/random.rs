//! The random source: the standard generator of the `rand` crate.

use vstd::prelude::*;
use rand::rngs::StdRng;
use rand::Rng;
use rand::SeedableRng;

verus! {

#[verifier::external_type_specification]
#[verifier::external_body]
pub struct ExStdRng(StdRng);

/// Calls `Rng::gen_range` of `rand` on the half-open range from zero to
/// `bound`. The range must not be empty, or `gen_range` panics. Of the value
/// that comes back this claims only that it lies in the range; which value
/// it is depends on the state of the generator.
#[verifier::external_body]
pub(crate) fn uniform_below(rng: &mut StdRng, bound: i64) -> (r: i64)
    requires
        bound > 0,
    ensures
        0 <= r < bound,
{
    rng.gen_range(0..bound)
}

/// Calls `SeedableRng::seed_from_u64` of `rand` for the standard generator.
/// Nothing is claimed of the generator that comes back.
#[verifier::external_body]
pub(crate) fn seeded(seed: u64) -> StdRng {
    StdRng::seed_from_u64(seed)
}

} // verus!
