use vstd::prelude::*;

verus! {

#[verifier::external_type_specification]
#[verifier::external_body]
pub struct ExStdRng(rand::rngs::StdRng);

/// Relies on `rand::SeedableRng::seed_from_u64`: a generator determined by the seed.
#[verifier::external_body]
pub(crate) fn rng_from_seed(seed: u64) -> rand::rngs::StdRng {
    <rand::rngs::StdRng as rand::SeedableRng>::seed_from_u64(seed)
}

/// Relies on `rand::SeedableRng::from_entropy`: a generator seeded by the operating
/// system (it panics only where the system has no randomness to give).
#[verifier::external_body]
pub(crate) fn rng_from_entropy() -> rand::rngs::StdRng {
    <rand::rngs::StdRng as rand::SeedableRng>::from_entropy()
}

/// Relies on `rand::Rng::gen_range` over `low..=high`: it panics only on an empty
/// range and otherwise returns a value inside the closed range.
#[verifier::external_body]
pub(crate) fn sample_inclusive(rng: &mut rand::rngs::StdRng, low: usize, high: usize) -> (r: usize)
    requires
        low <= high,
    ensures
        low <= r <= high,
{
    rand::Rng::gen_range(rng, low..=high)
}

} // verus!
