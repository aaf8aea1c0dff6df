//! The pseudo-random generator behind the entropy stage: a process-lifetime
//! `rand::rngs::StdRng`, seeded once at construction from the operating
//! system's entropy source, advanced by exactly one bounded draw per buffer
//! whenever the stage is active. Nothing is promised of the values drawn
//! beyond their range; no two runs reproduce each other.

use vstd::prelude::*;

verus! {

/// `rand::rngs::StdRng` carried as an opaque value through the processor.
#[verifier::external_type_specification]
#[verifier::external_body]
pub struct ExStdRng(rand::rngs::StdRng);

/// Relies on rand's `SeedableRng::from_entropy`: a fresh generator seeded
/// from the operating system. Panics only if the system's entropy source
/// fails; nothing is promised of the value.
#[verifier::external_body]
pub(crate) fn rng_from_entropy() -> rand::rngs::StdRng {
    <rand::rngs::StdRng as rand::SeedableRng>::from_entropy()
}

/// Relies on rand's `Rng::gen_range` over the half-open range `1..bound`: a
/// uniformly distributed draw at least one and strictly below `bound`,
/// advancing the generator by one draw. The range must not be empty, since
/// `gen_range` panics on an empty range.
#[verifier::external_body]
pub(crate) fn draw_in_range(gen: &mut rand::rngs::StdRng, bound: i32) -> (n: i32)
    requires
        bound > 1,
    ensures
        1 <= n < bound,
{
    rand::Rng::gen_range(gen, 1..bound)
}

} // verus!
