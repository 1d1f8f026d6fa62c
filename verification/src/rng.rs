//! The random number generator of the machine. Its state is opaque to the
//! proofs: nothing is claimed of the bytes it gives.

use vstd::prelude::*;
use rand::Rng;
use rand::SeedableRng;

verus! {

/// `rand::rngs::StdRng`, the generator that the machine holds. The proofs
/// see nothing inside it.
#[verifier::external_type_specification]
#[verifier::external_body]
pub struct ExStdRng(rand::rngs::StdRng);

/// Calls `rand::SeedableRng::seed_from_u64` for `rand::rngs::StdRng`: a
/// generator built from `seed`. Nothing is claimed of the generator.
#[verifier::external_body]
pub(crate) fn seeded_rng(seed: u64) -> rand::rngs::StdRng {
    rand::rngs::StdRng::seed_from_u64(seed)
}

/// Calls `rand::Rng::gen::<u8>` on the generator, which advances it and
/// hands out one byte. Nothing is claimed of the byte; the call returns
/// normally for every state of the generator.
#[verifier::external_body]
pub(crate) fn next_byte(rng: &mut rand::rngs::StdRng) -> u8
    no_unwind
{
    rng.gen::<u8>()
}

} // verus!
