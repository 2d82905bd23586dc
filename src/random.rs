use vstd::prelude::*;

verus! {

/// Relies on bracket_lib's `RandomNumberGenerator::new` and `range`: a generator
/// seeded from the system draws a value in `[min, max)` (`range` panics on an
/// empty range, hence the `requires`).
#[verifier::external_body]
pub(crate) fn random_range(min: i32, max: i32) -> (r: i32)
    requires
        min < max,
    ensures
        min <= r < max,
{
    let mut rng = bracket_lib::prelude::RandomNumberGenerator::new();
    rng.range(min, max)
}

} // verus!
