//! Salt generation for password hashing.
//!
//! The hashing itself is the persistence collaborator's concern; the one
//! piece the engine supplies is a fresh 32-byte salt per hash.

use vstd::prelude::*;
use rand::RngCore;

verus! {

/// Relies on `rand::rngs::ThreadRng::try_fill_bytes` (via
/// `rand::thread_rng`): on success the buffer holds fresh random bytes.
/// Nothing is promised of the bytes themselves.
#[verifier::external_body]
fn fill_random(buf: &mut [u8; 32]) -> (r: Result<(), ()>) {
    rand::thread_rng().try_fill_bytes(buf).map_err(|_| ())
}

/// Draws a fresh 32-byte salt, or reports that the random source failed.
pub fn salt() -> (r: Result<[u8; 32], ()>) {
    let mut buf: [u8; 32] = [0; 32];
    match fill_random(&mut buf) {
        Ok(()) => Ok(buf),
        Err(()) => Err(()),
    }
}

} // verus!
