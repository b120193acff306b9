//! Key establishment and authenticated encryption for a secure channel.
//!
//! Two parties agree on a secret over X25519 ([`key::key_pair`],
//! [`SharedKey::new`]), stretch it with a salt into an AES-128 key
//! ([`SharedKey::scrypt`] or [`SharedKey::hkdf`]) and seal byte payloads under
//! that key with AES-128-GCM ([`Chipher`]). Transport, framing and the exchange
//! of the public keys are the caller's business.

pub mod chipher;
pub mod exceptions;
pub mod key;
mod random;

pub use chipher::Chipher;
pub use exceptions::OblivionException;
pub use key::SharedKey;

use vstd::prelude::*;

verus! {

/// A sealed message: the ciphertext, the 16-byte tag and the 12-byte nonce, in
/// this order. The three travel together and are opened together.
pub type OblivionData = (Vec<u8>, Vec<u8>, Vec<u8>);

} // verus!
