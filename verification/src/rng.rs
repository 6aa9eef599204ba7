use rand::Rng;
use rand_chacha::ChaCha8Rng;
use rand_core::RngCore;
use vstd::prelude::*;

verus! {

/// The seeded random number generator that drives every random choice of the fuzzer.
#[verifier::external_type_specification]
#[verifier::external_body]
pub struct ExChaCha8Rng(ChaCha8Rng);

/// Draws the next 64 random bits from `rng` (`RngCore::next_u64`).
/// Any value may come back; nothing is claimed of it.
#[verifier::external_body]
pub(crate) fn next_u64(rng: &mut ChaCha8Rng) -> (r: u64) {
    rng.next_u64()
}

/// Draws a value in `lo..=hi` (`Rng::random_range` on an inclusive range).
/// The range is never empty here, so the call does not panic; which value
/// comes back depends on the generator's state and is not claimed.
#[verifier::external_body]
pub(crate) fn random_u8_inclusive(rng: &mut ChaCha8Rng, lo: u8, hi: u8) -> (r: u8)
    requires
        lo <= hi,
    ensures
        lo <= r <= hi,
{
    rng.random_range(lo..=hi)
}

/// Draws an index in `0..n` (`Rng::random_range` on an exclusive range).
/// `n > 0`, so the range is not empty and the call does not panic.
#[verifier::external_body]
pub(crate) fn random_index(rng: &mut ChaCha8Rng, n: usize) -> (r: usize)
    requires
        n > 0,
    ensures
        r < n,
{
    rng.random_range(0..n)
}

} // verus!
