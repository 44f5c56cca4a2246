//! The random number generator that places the gaps.
//!
//! Nothing in this file is proved: it states what the generator of
//! `bracket_lib` is taken to do.

use vstd::prelude::*;
use bracket_lib::prelude::RandomNumberGenerator;

verus! {

/// `bracket_lib`'s random number generator, carried as an opaque value.
#[verifier::external_type_specification]
#[verifier::external_body]
pub struct ExRandomNumberGenerator(bracket_lib::prelude::RandomNumberGenerator);

/// `RandomNumberGenerator::new` makes a generator from a seed that the
/// operating system supplies. Nothing is claimed of the generator.
pub assume_specification[ bracket_lib::prelude::RandomNumberGenerator::new ]() -> (rng:
    bracket_lib::prelude::RandomNumberGenerator);

/// `RandomNumberGenerator::range` at `i64`: it returns a number that is at
/// least `min` and less than `max`, and panics where `min` is not less than
/// `max`. Which number comes back is left open.
#[verifier::external_body]
pub(crate) fn range_i64(rng: &mut RandomNumberGenerator, min: i64, max: i64) -> (r: i64)
    requires
        min < max,
    ensures
        min <= r < max,
{
    rng.range(min, max)
}

} // verus!
