//! The process-wide source of random bytes.
//!
//! Salts, nonces and private keys all come from the operating system's
//! generator, which may be used from several threads at once.

use ring::rand::{SecureRandom, SystemRandom};
use vstd::prelude::*;

verus! {

/// `ring::rand::SystemRandom::fill` on a fresh buffer of `len` bytes.
///
/// Trusted: the buffer that comes back has the length asked for. Nothing is
/// claimed of the bytes, which differ from call to call.
///
/// A failure of the operating system's generator leaves no way to go on, and
/// is the one fault that ends the process here instead of being reported.
#[verifier::external_body]
pub(crate) fn random_bytes(len: usize) -> (bytes: Vec<u8>)
    ensures
        bytes@.len() == len,
{
    let mut bytes = vec![0u8; len];
    SystemRandom::new().fill(&mut bytes).unwrap();
    bytes
}

} // verus!
