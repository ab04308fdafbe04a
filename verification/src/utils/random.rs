use vstd::prelude::*;
use rand::Rng;

verus! {

/// A random 32-bit number from the thread's generator
/// (`rand::thread_rng().gen::<u32>()`); any value may come back.
#[verifier::external_body]
fn random_u32() -> u32 {
    rand::thread_rng().gen::<u32>()
}

/// The packet sequence number drawn from a random number: its low 24 bits,
/// the only ones a PSN has.
pub fn psn_from_random(x: u32) -> (r: u32)
    ensures
        r == x % 0x100_0000,
        r < 0x100_0000,
{
    assert(x & 0x00FF_FFFFu32 == x % 0x100_0000) by (bit_vector);
    x & 0x00FF_FFFF
}

/// A random packet sequence number: below 2^24.
pub fn generate_psn() -> (r: u32)
    ensures
        r < 0x100_0000,
{
    psn_from_random(random_u32())
}

} // verus!
