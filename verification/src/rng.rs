//! The machine's random source: a thread-local generator from the `rand`
//! crate, kept behind trusted declarations. Nothing is promised of the
//! bytes it produces; every caller must hold for every outcome.
use rand::Rng;
use vstd::prelude::*;

verus! {

/// Declares `rand`'s thread-local generator type so it can live in a field;
/// its values are opaque here.
#[verifier::external_type_specification]
#[verifier::external_body]
pub struct ExThreadRng(rand::rngs::ThreadRng);

/// Relies on `rand::thread_rng`: returns a handle to the thread-local
/// generator. Nothing is assumed about it.
#[verifier::external_body]
pub(crate) fn fresh_rng() -> rand::rngs::ThreadRng {
    rand::thread_rng()
}

/// Relies on `rand::Rng::gen_range` over `0..=255`: returns a uniform byte.
/// The range is never empty, so the call does not panic; no ensures, since
/// any byte may come back.
#[verifier::external_body]
pub(crate) fn random_byte(rng: &mut rand::rngs::ThreadRng) -> u8 {
    rng.gen_range(0..=255)
}

} // verus!
