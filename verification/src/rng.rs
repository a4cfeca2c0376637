use vstd::prelude::*;

use bracket_lib::random::RandomNumberGenerator;

verus! {

/// bracket_lib's dice-oriented random number generator, declared so that a
/// value of it can be created, carried and drawn from; it stays opaque.
#[verifier::external_type_specification]
#[verifier::external_body]
pub struct ExRandomNumberGenerator(RandomNumberGenerator);

/// Relies on bracket_lib's `RandomNumberGenerator::new`: a generator freshly
/// seeded from system entropy or the clock. Nothing is assumed of its stream.
#[verifier::external_body]
pub(crate) fn fresh_rng() -> RandomNumberGenerator {
    RandomNumberGenerator::new()
}

/// Relies on bracket_lib's `RandomNumberGenerator::range`: a draw inclusive
/// of `low` and exclusive of `high` (it panics when the range is empty, so
/// that case is required away). Which value comes back is left open.
#[verifier::external_body]
pub(crate) fn range_i32(rng: &mut RandomNumberGenerator, low: i32, high: i32) -> (r: i32)
    requires
        low < high,
    ensures
        low <= r < high,
{
    rng.range(low, high)
}

} // verus!
