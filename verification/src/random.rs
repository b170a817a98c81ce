//! The pseudo-random generator that map generation, random spawning and the
//! wandering policy draw from. The generator is handed in by the caller, so
//! that a seeded one makes a run repeatable.
use rand::rngs::StdRng;
use rand::RngExt;
use vstd::prelude::*;

verus! {

/// `rand::rngs::StdRng`. Nothing is known of its state.
#[verifier::external_type_specification]
#[verifier::external_body]
pub struct ExStdRng(rand::rngs::StdRng);

/// Calls `RngExt::random_range` of the `rand` crate with the range
/// `0..bound`. Believed of it, not proved: on a range that is not empty the
/// call returns, and what it returns lies in the range. Which number comes is
/// left open.
#[verifier::external_body]
pub(crate) fn random_below(rng: &mut StdRng, bound: usize) -> (r: usize)
    requires
        bound > 0,
    ensures
        r < bound,
{
    rng.random_range(0..bound)
}

} // verus!
