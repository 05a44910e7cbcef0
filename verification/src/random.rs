use vstd::prelude::*;
use bracket_lib::random::RandomNumberGenerator;

verus! {

/// `bracket_lib`'s random number generator. Its internal state is not
/// modelled: nothing is known of the values it will draw.
#[verifier::external_type_specification]
#[verifier::external_body]
pub struct ExRandomNumberGenerator(RandomNumberGenerator);

/// Draws from `RandomNumberGenerator::range` with `i32` bounds.
///
/// Trusted, not proved: the generator samples the half-open range, so the
/// value is at least `min` and below `max`. An empty range makes the
/// generator panic, hence `min < max`. Which value of the range comes back
/// is left open.
#[verifier::external_body]
pub(crate) fn draw_between(rng: &mut RandomNumberGenerator, min: i32, max: i32) -> (r: i32)
    requires
        min < max,
    ensures
        min <= r < max,
{
    rng.range(min, max)
}

} // verus!
