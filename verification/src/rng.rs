use vstd::prelude::*;
use rltk::RandomNumberGenerator;

verus! {

/// The terminal library's dice-rolling random number generator.
#[verifier::external_type_specification]
#[verifier::external_body]
pub struct ExRandomNumberGenerator(RandomNumberGenerator);

/// Calls `RandomNumberGenerator::roll_dice`, which sums `n` rolls of a die with
/// `die_type` faces numbered from 1. Claimed of it: the sum lies between `n` and
/// `n * die_type`. Excluded: a die with no faces or so many that `die_type + 1`
/// overflows (the source then panics), and totals beyond `i32`. Which value comes
/// up is left unsaid: it rests on the generator's state.
#[verifier::external_body]
pub(crate) fn roll_dice(rng: &mut RandomNumberGenerator, n: i32, die_type: i32) -> (r: i32)
    requires
        0 <= n,
        1 <= die_type < i32::MAX,
        n * die_type <= i32::MAX,
    ensures
        n <= r <= n * die_type,
{
    rng.roll_dice(n, die_type)
}

} // verus!
