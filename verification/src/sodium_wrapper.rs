//! Random data generation for key material, behind a small trait so that a
//! deterministic source can stand in during tests.

use vstd::prelude::*;
use rand::Rng;

verus! {

/// Relies on rand::rng and rand::Rng::fill_bytes: fills the whole buffer
/// with random bytes. Nothing is promised of their values: they are random.
#[verifier::external_body]
fn random_bytes(len: usize) -> (r: Vec<u8>)
    ensures
        r@.len() == len,
{
    let mut buf = vec![0u8; len];
    rand::rng().fill_bytes(&mut buf);
    buf
}

/// A source of random bytes.
pub trait Random {
    /// Overwrites the buffer with fresh bytes; its length does not change.
    fn fill_bytes(&mut self, out: &mut Vec<u8>)
        ensures
            final(out)@.len() == old(out)@.len(),
    ;
}

/// The process-wide random generator.
pub struct SodiumRandom;

impl Default for SodiumRandom {
    fn default() -> (r: SodiumRandom)
        ensures
            r == (SodiumRandom {  }),
    {
        SodiumRandom {  }
    }
}

impl Random for SodiumRandom {
    fn fill_bytes(&mut self, out: &mut Vec<u8>) {
        let len = out.len();
        let fresh = random_bytes(len);
        *out = fresh;
    }
}

} // verus!
