//! Trusted boundary to the pseudo-random number generator.
//!
//! The heightmap generator draws its values from `rand`'s `SmallRng`, seeded
//! so that one run is deterministic. The generator's algorithm depends on the
//! platform, so nothing is claimed here about which value a draw yields —
//! only that every draw lies below the requested bound.

use vstd::prelude::*;
use rand::Rng;
use rand::SeedableRng;
use rand::rngs::SmallRng;

verus! {

/// `rand::rngs::SmallRng`, opaque to the verifier: a small-state seeded
/// pseudo-random generator.
#[verifier::external_type_specification]
#[verifier::external_body]
pub struct ExSmallRng(SmallRng);

/// Relies on rand's `SeedableRng::seed_from_u64`: builds a generator whose
/// draws are a fixed function of `seed` for the duration of the process.
#[verifier::external_body]
pub(crate) fn rng_from_seed(seed: u64) -> SmallRng {
    SmallRng::seed_from_u64(seed)
}

/// Relies on rand's `Rng::gen_range` over the range `0..bound`: returns a
/// uniformly distributed value of that half-open range, and panics only when
/// the range is empty, which the precondition excludes.
#[verifier::external_body]
pub(crate) fn draw_below(rng: &mut SmallRng, bound: u32) -> (r: u32)
    requires
        bound > 0,
    ensures
        r < bound,
{
    rng.gen_range(0..bound)
}

} // verus!
