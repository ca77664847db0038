//! The engine's random source: rand's `StdRng`, reached only through the
//! trusted draws below. Nothing is assumed of a drawn value beyond its range,
//! so every function that consumes a draw is verified for all outcomes.

use vstd::prelude::*;
use rand::Rng;
use rand::SeedableRng;

verus! {

#[verifier::external_type_specification]
#[verifier::external_body]
pub struct ExStdRng(rand::rngs::StdRng);

/// Relies on rand's `StdRng::seed_from_u64`: builds a generator from a seed.
#[verifier::external_body]
pub(crate) fn seed_rng(seed: u64) -> rand::rngs::StdRng {
    rand::rngs::StdRng::seed_from_u64(seed)
}

/// Relies on rand's `thread_rng` and `Rng::gen`: one entropy draw used to
/// seed a fresh generator.
#[verifier::external_body]
pub(crate) fn draw_seed() -> u64 {
    rand::thread_rng().gen()
}

/// Relies on rand's `Rng::gen_range`: a uniform draw in `[0, bound)`.
/// `gen_range` panics on an empty range, so the bound must be positive.
#[verifier::external_body]
pub(crate) fn draw_below(rng: &mut rand::rngs::StdRng, bound: u16) -> (r: u16)
    requires
        bound >= 1,
    ensures
        r < bound,
{
    rng.gen_range(0..bound)
}

/// Relies on rand's `Standard` distribution on `bool`: a fair coin.
#[verifier::external_body]
pub(crate) fn draw_bool(rng: &mut rand::rngs::StdRng) -> bool {
    rng.gen()
}

/// Relies on rand's `Standard` distribution on `u32`: a uniform Q32
/// fixed-point sample in `[0, 1)`.
#[verifier::external_body]
pub(crate) fn draw_sample(rng: &mut rand::rngs::StdRng) -> u32 {
    rng.gen()
}

} // verus!
