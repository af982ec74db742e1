use vstd::prelude::*;

use rand::RngCore;
use rand::SeedableRng;
use rand::rngs::SmallRng;

verus! {

#[verifier::external_type_specification]
#[verifier::external_body]
pub struct ExSmallRng(SmallRng);

/// Relies on rand's `SmallRng::from_rng`, seeded from the thread-local
/// generator: returns some generator state; nothing is assumed of it.
#[verifier::external_body]
pub(crate) fn rng_from_entropy() -> SmallRng {
    SmallRng::from_rng(&mut rand::rng())
}

/// Relies on rand's `SeedableRng::seed_from_u64`: returns a generator state
/// derived from the seed; nothing is assumed of it.
#[verifier::external_body]
pub(crate) fn rng_from_seed(seed: u64) -> SmallRng {
    SmallRng::seed_from_u64(seed)
}

/// Relies on rand's `RngCore::next_u32` for `SmallRng`: advances the
/// generator and returns 32 bits; nothing is assumed of the value.
#[verifier::external_body]
pub(crate) fn rng_next_u32(rng: &mut SmallRng) -> u32 {
    rng.next_u32()
}

} // verus!
