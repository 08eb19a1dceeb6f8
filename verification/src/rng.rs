//! Trusted declarations for the random source. The generator itself is an
//! outside value that Verus treats as opaque; nothing is assumed of which
//! numbers come out beyond the documented range of a draw.

use vstd::prelude::*;

verus! {

#[verifier::external_type_specification]
#[verifier::external_body]
pub struct ExRandom(seeded_random::Random);

/// Relies on seeded_random's `Random::new`: it builds a generator from a
/// fresh, unpredictable seed. Nothing is promised about its draws.
pub assume_specification[ seeded_random::Random::new ]() -> seeded_random::Random;

/// Relies on seeded_random's `Random::range`, which delegates to rand's
/// `gen_range(min..max)`: the draw lies in the half-open range. rand
/// panics on an empty range, so that is required away.
pub assume_specification[ seeded_random::Random::range ](
    rng: &seeded_random::Random,
    min: u32,
    max: u32,
) -> (n: u32)
    requires
        min < max,
    ensures
        min <= n < max,
;

} // verus!
