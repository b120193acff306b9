//! The error type shared by every fallible operation of the library.

use ring::error::Unspecified;
use scrypt::errors::InvalidOutputLen;
use std::string::FromUtf8Error;
use vstd::prelude::*;

verus! {

/// `ring::error::Unspecified`: the error that *ring* returns, which carries no
/// detail on purpose. The verifier sees nothing inside a value of it.
#[verifier::external_type_specification]
#[verifier::external_body]
pub struct ExUnspecified(Unspecified);

/// `scrypt::errors::InvalidOutputLen`: the error of `scrypt::scrypt` for an
/// output buffer of a length it cannot fill. Opaque to the verifier.
#[verifier::external_type_specification]
#[verifier::external_body]
pub struct ExInvalidOutputLen(InvalidOutputLen);

/// `std::string::FromUtf8Error`: the error of `String::from_utf8`, which hands
/// the rejected bytes back. Opaque to the verifier.
#[verifier::external_type_specification]
#[verifier::external_body]
pub struct ExFromUtf8Error(FromUtf8Error);

/// Why an operation failed. Every failure is final for the call that reports
/// it: nothing is retried and nothing is replaced by a default.
///
/// Each variant keeps the error of the primitive that refused, so that a caller
/// can hand it on. Sealing and opening have one variant each, whatever the
/// reason: a wrong key and tampered data are not told apart.
#[allow(inconsistent_fields)]
#[derive(Debug, PartialEq)]
pub enum OblivionException {
    /// The AEAD refused to seal: the key, the nonce or the plaintext has a
    /// length that it does not take.
    EncryptError { e: Unspecified },
    /// The AEAD refused to open: a length is wrong, or the tag does not
    /// authenticate the ciphertext under this key and nonce.
    DecryptError { e: Unspecified },
    /// The key agreement refused the peer's public key.
    SharedKeyError { e: Unspecified },
    /// The opened plaintext is not UTF-8, so it is no text.
    FromUtf8Error { e: FromUtf8Error },
    /// The slow derivation was asked for a key of a length it cannot give.
    InvalidOutputLen { e: InvalidOutputLen },
}

/// `Clone::clone` of `std::string::FromUtf8Error`.
///
/// Trusted: the clone is equal to the error it was made from.
pub assume_specification[ <std::string::FromUtf8Error as Clone>::clone ](
    e: &std::string::FromUtf8Error,
) -> (cloned: std::string::FromUtf8Error)
    ensures
        cloned == *e,
;

impl Clone for OblivionException {
    /// A copy of the error, with a copy of the primitive's error in it.
    fn clone(&self) -> (cloned: Self)
        ensures
            cloned == *self,
    {
        match self {
            OblivionException::EncryptError { e } => OblivionException::EncryptError { e: *e },
            OblivionException::DecryptError { e } => OblivionException::DecryptError { e: *e },
            OblivionException::SharedKeyError { e } => OblivionException::SharedKeyError { e: *e },
            OblivionException::FromUtf8Error { e } => OblivionException::FromUtf8Error {
                e: e.clone(),
            },
            OblivionException::InvalidOutputLen { e } => OblivionException::InvalidOutputLen {
                e: *e,
            },
        }
    }
}

} // verus!
