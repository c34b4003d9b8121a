//! The random source behind the obstacle generator.

use bracket_lib::random::RandomNumberGenerator;
use vstd::prelude::*;

verus! {

/// The random number generator of `bracket_lib`. Verified code only carries
/// it from where it is made to where it is drawn from.
#[verifier::external_type_specification]
#[verifier::external_body]
pub struct ExRandomNumberGenerator(RandomNumberGenerator);

/// `RandomNumberGenerator::new`: a generator seeded from the operating
/// system's entropy. Nothing is claimed of its state.
#[verifier::external_body]
pub(crate) fn fresh_generator() -> RandomNumberGenerator {
    RandomNumberGenerator::new()
}

/// `RandomNumberGenerator::range` on `i32`: a draw from the half-open range
/// `min..max`. The generator panics on an empty range, hence the `requires`;
/// on any other it returns a value that is at least `min` and less than `max`.
/// Which one is left open.
#[verifier::external_body]
pub(crate) fn draw(rng: &mut RandomNumberGenerator, min: i32, max: i32) -> (value: i32)
    requires
        min < max,
    ensures
        min <= value < max,
{
    rng.range(min, max)
}

} // verus!
