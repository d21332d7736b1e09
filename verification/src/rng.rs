//! The seedable source of pseudo-randomness used by the generator.
//!
//! The generator only needs a reproducible stream of uniform values; the
//! stream itself comes from the `rand` crate and is taken on trust. Every
//! contract here states only what holds of every outcome, so everything
//! proved about generated modules holds whatever values the stream yields.

use vstd::prelude::*;

verus! {

#[verifier::external_type_specification]
#[verifier::external_body]
pub struct ExStdRng(rand::rngs::StdRng);

/// Relies on `rand::SeedableRng::seed_from_u64`: builds a deterministically
/// seeded `StdRng` from a 64-bit seed.
#[verifier::external_body]
pub(crate) fn rng_from_seed(seed: u64) -> rand::rngs::StdRng {
    <rand::rngs::StdRng as rand::SeedableRng>::seed_from_u64(seed)
}

/// Relies on `rand::Rng::gen_range` over `lo..hi`: returns a uniform value
/// in `[lo, hi)` and panics only on an empty range, which the precondition
/// excludes.
#[verifier::external_body]
pub(crate) fn rng_range(rng: &mut rand::rngs::StdRng, lo: usize, hi: usize) -> (r: usize)
    requires
        lo < hi,
    ensures
        lo <= r < hi,
{
    rand::Rng::gen_range(rng, lo..hi)
}

/// Relies on `rand::Rng::gen` for `u8`: returns a uniformly drawn byte.
#[verifier::external_body]
pub(crate) fn rng_byte(rng: &mut rand::rngs::StdRng) -> u8 {
    rand::Rng::gen::<u8>(rng)
}

/// Relies on `rand::Rng::gen` for `char`: returns a uniformly drawn Unicode
/// scalar value.
#[verifier::external_body]
pub(crate) fn rng_char(rng: &mut rand::rngs::StdRng) -> char {
    rand::Rng::gen::<char>(rng)
}

/// Relies on `rand::Rng::gen` for `bool`: returns a fair coin flip.
#[verifier::external_body]
pub(crate) fn rng_coin(rng: &mut rand::rngs::StdRng) -> bool {
    rand::Rng::gen::<bool>(rng)
}

} // verus!
