//! Randomness for the simulation: a seedable pseudo-random generator for
//! food placement, the operating system's entropy for the initial seed, and
//! the process-wide thread-local generator. Each outside call sits behind a
//! trusted item; everything the rest of the library proves rests only on the
//! ranges stated here.

use rand::Rng;
use vstd::prelude::*;

verus! {

#[verifier::external_type_specification]
#[verifier::external_body]
pub struct ExRand32(oorandom::Rand32);

/// Relies on oorandom::Rand32::new: builds a generator seeded with `seed`.
#[verifier::external_body]
pub(crate) fn rand32_new(seed: u64) -> oorandom::Rand32 {
    oorandom::Rand32::new(seed)
}

/// Relies on oorandom::Rand32::rand_range: returns a value in
/// `[start, end)`, including the lower bound and excluding the upper one,
/// and advances the generator's state. An empty range is excluded: the
/// callee's arithmetic is only sound for `start < end`.
#[verifier::external_body]
pub(crate) fn rand_range_u32(rng: &mut oorandom::Rand32, start: u32, end: u32) -> (r: u32)
    requires
        start < end,
    ensures
        start <= r < end,
{
    rng.rand_range(start..end)
}

/// Relies on getrandom::getrandom: fills eight bytes with entropy from the
/// operating system. Nothing can be promised of the value, nor of whether
/// the source is available; an unavailable source gives `None`.
#[verifier::external_body]
pub(crate) fn entropy_seed() -> Option<u64> {
    let mut seed: [u8; 8] = [0; 8];
    match getrandom::getrandom(&mut seed[..]) {
        Ok(()) => Some(u64::from_ne_bytes(seed)),
        Err(_) => None,
    }
}

/// Relies on rand::thread_rng and rand::Rng::gen_range: draws a value in
/// `[0, max)` from the thread-local generator. An empty range is excluded:
/// gen_range panics on one.
#[verifier::external_body]
pub(crate) fn thread_range_i16(max: i16) -> (r: i16)
    requires
        0 < max,
    ensures
        0 <= r < max,
{
    rand::thread_rng().gen_range(0..max)
}

} // verus!
