//! Key agreement over X25519, and the two derivations that stretch the agreed
//! secret and a salt into an AES-128 key.
//!
//! A party draws a key pair, sends the public key to its peer, and builds a
//! [`SharedKey`] from its own private key and the peer's public key. The
//! private key is moved into the agreement, so it serves once. From the shared
//! key a session derives its AES key by one of two routes, never by both:
//! [`SharedKey::scrypt`], which is slow and memory-hard, or
//! [`SharedKey::hkdf`], which is fast. Both are functions of the secret and
//! the salt alone.

use crate::chipher::KEY_LEN;
use crate::exceptions::OblivionException;
use crate::random::random_bytes;
use hkdf::Hkdf;
use ring::agreement::{agree_ephemeral, EphemeralPrivateKey, UnparsedPublicKey, X25519};
use ring::error::Unspecified;
use ring::rand::SystemRandom;
use scrypt::errors::InvalidOutputLen;
use scrypt::Params;
use sha2::Sha256;
use vstd::arithmetic::power2::{lemma2_to64, pow2};
use vstd::prelude::*;

verus! {

/// The length of a salt, in bytes: that of the key which is derived with it.
pub const SALT_LEN: usize = 16;

/// The length of an X25519 public key, in bytes.
pub const PUBLIC_KEY_LEN: usize = 32;

/// The length of the secret that an X25519 agreement gives, in bytes.
pub const SHARED_SECRET_LEN: usize = 32;

/// The cost of the slow derivation: the logarithm to base 2 of scrypt's `N`.
/// A key derived under other parameters is another key, so a change here
/// breaks with every peer that has not made it too.
pub const SCRYPT_LOG_N: u8 = 12;

/// The block size `r` of the slow derivation.
pub const SCRYPT_R: u32 = 8;

/// The parallelism `p` of the slow derivation.
pub const SCRYPT_P: u32 = 1;

/// The longest output that HKDF with SHA-256 gives: 255 blocks of 32 bytes.
pub const HKDF_MAX_LEN: usize = 8160;

/// `ring::agreement::EphemeralPrivateKey`: a private key that serves for one
/// agreement. *ring* never shows its bytes, and the verifier sees nothing of it.
#[verifier::external_type_specification]
#[verifier::external_body]
pub struct ExEphemeralPrivateKey(EphemeralPrivateKey);

/// The public key that belongs to a private key: the bytes that
/// `ring::agreement::EphemeralPrivateKey::compute_public_key` gives for it.
pub uninterp spec fn x25519_public(private_key: EphemeralPrivateKey) -> Seq<u8>;

/// The secret that a private key and a peer's public key agree on, or `None`
/// where the agreement is refused. It stands for the outcome of
/// `ring::agreement::agree_ephemeral` with the peer's bytes taken as an X25519
/// key, which depends on these two values and on nothing else.
pub uninterp spec fn x25519_agreed(
    private_key: EphemeralPrivateKey,
    peer_public_key: Seq<u8>,
) -> Option<Seq<u8>>;

/// The key of `len` bytes that scrypt derives from a password and a salt under
/// the parameters `log_n`, `r` and `p`. It stands for what `scrypt::scrypt`
/// writes into its output buffer.
pub uninterp spec fn scrypt_output(
    password: Seq<u8>,
    salt: Seq<u8>,
    log_n: u8,
    r: u32,
    p: u32,
    len: nat,
) -> Seq<u8>;

/// The `len` bytes of output keying material that HKDF with SHA-256 gives for
/// a salt, input keying material and an info string. It stands for what
/// `hkdf::Hkdf::expand` writes into its output buffer, after `Hkdf::new`.
pub uninterp spec fn hkdf_sha256_output(
    salt: Seq<u8>,
    ikm: Seq<u8>,
    info: Seq<u8>,
    len: nat,
) -> Seq<u8>;

/// Whether every byte of `bytes` is zero.
pub open spec fn all_zero(bytes: Seq<u8>) -> bool {
    forall|i: int| 0 <= i < bytes.len() ==> bytes[i] == 0
}

/// The output lengths that `scrypt::scrypt` can fill: at least one byte, and
/// no more blocks of 32 bytes than 32 bits can count.
pub open spec fn scrypt_output_len_valid(len: usize) -> bool {
    0 < len && len / 32 <= 0xffff_ffff
}

/// The parameters and key lengths that `scrypt::Params::new` takes.
pub open spec fn scrypt_params_valid(log_n: u8, r: u32, p: u32, len: usize) -> bool {
    &&& 0 < r
    &&& 0 < p
    &&& log_n < usize::BITS
    &&& 10 <= len <= 64
    &&& r * 128 * pow2(log_n as nat) <= usize::MAX
    &&& r * 128 * p <= usize::MAX
    &&& log_n < r * 16
    &&& r * p < 0x4000_0000
}

/// `ring::agreement::EphemeralPrivateKey::generate` for X25519 with the
/// system's random generator, and `compute_public_key` on the new key.
///
/// Trusted: the bytes are the public key of the private key that comes with
/// them, and there are `PUBLIC_KEY_LEN` of them. Nothing is claimed of the
/// private key, which differs from call to call.
///
/// A failure of the operating system's generator ends the process, as in
/// [`random_bytes`].
#[verifier::external_body]
fn generate_x25519() -> (pair: (EphemeralPrivateKey, Vec<u8>))
    ensures
        pair.1@ == x25519_public(pair.0),
        pair.1@.len() == PUBLIC_KEY_LEN,
{
    let private_key = EphemeralPrivateKey::generate(&X25519, &SystemRandom::new()).unwrap();
    let public_key = private_key.compute_public_key().unwrap();
    (private_key, public_key.as_ref().to_vec())
}

/// `ring::agreement::agree_ephemeral` with the peer's key as an X25519
/// `UnparsedPublicKey`; the key material is copied out as it is.
///
/// Trusted:
/// - the outcome is that of the X25519 agreement on this private key and these
///   bytes;
/// - an agreement is reached only with a peer key of `PUBLIC_KEY_LEN` bytes,
///   and its secret has `SHARED_SECRET_LEN` bytes that are not all zero (a
///   peer key of small order, which would give zeros, is refused).
#[verifier::external_body]
fn agree_x25519(private_key: EphemeralPrivateKey, peer_public_key: &[u8]) -> (r: Result<
    Vec<u8>,
    Unspecified,
>)
    ensures
        match r {
            Ok(secret) => x25519_agreed(private_key, peer_public_key@) == Some(secret@),
            Err(_) => x25519_agreed(private_key, peer_public_key@) is None,
        },
        r matches Ok(secret) ==> secret@.len() == SHARED_SECRET_LEN && !all_zero(secret@),
        r is Ok ==> peer_public_key@.len() == PUBLIC_KEY_LEN,
{
    agree_ephemeral(private_key, &UnparsedPublicKey::new(&X25519, peer_public_key), <[u8]>::to_vec)
}

/// `scrypt::Params::new` and `scrypt::scrypt` into a fresh buffer of `len`
/// bytes.
///
/// Trusted: under parameters that `Params::new` takes, `scrypt::scrypt`
/// refuses exactly the output lengths that [`scrypt_output_len_valid`] rules
/// out, and otherwise fills the buffer with scrypt's key for these parameters.
#[verifier::external_body]
fn scrypt_derive(password: &[u8], salt: &[u8], log_n: u8, r: u32, p: u32, len: usize) -> (derived:
    Result<Vec<u8>, InvalidOutputLen>)
    requires
        scrypt_params_valid(log_n, r, p, len),
    ensures
        derived is Ok <==> scrypt_output_len_valid(len),
        derived matches Ok(key) ==> key@.len() == len,
        derived matches Ok(key) ==> key@ == scrypt_output(
            password@,
            salt@,
            log_n,
            r,
            p,
            len as nat,
        ),
{
    let params = Params::new(log_n, r, p, len).unwrap();
    let mut key = vec![0u8; len];
    scrypt::scrypt(password, salt, &params, &mut key)?;
    Ok(key)
}

/// `hkdf::Hkdf::<Sha256>::new` with a salt, and `expand` into `N` bytes.
///
/// Trusted: the bytes are HKDF's output keying material of that length.
#[verifier::external_body]
fn hkdf_sha256<const N: usize>(salt: &[u8], ikm: &[u8], info: &[u8]) -> (okm: [u8; N])
    requires
        HKDF_MAX_LEN >= N,
    ensures
        okm@ == hkdf_sha256_output(salt@, ikm@, info@, N as nat),
{
    let mut okm = [0u8; N];
    Hkdf::<Sha256>::new(Some(salt), ikm).expand(info, &mut okm).unwrap();
    okm
}

/// A random salt of `SALT_LEN` bytes for one key derivation. A salt is no
/// secret: it travels to the peer, which derives the same key with it.
pub fn salt() -> (salt: Vec<u8>)
    ensures
        salt@.len() == SALT_LEN,
{
    random_bytes(SALT_LEN)
}

/// An X25519 public key as it travels: a point of the curve in 32 bytes, or
/// whatever a peer sent in its place. It is no secret and may be copied.
///
/// Bytes that are no valid key are found out by the agreement, not here.
#[derive(Debug, PartialEq, Eq)]
pub struct PublicKey {
    bytes: Vec<u8>,
}

impl View for PublicKey {
    type V = Seq<u8>;

    /// The bytes of the key.
    closed spec fn view(&self) -> Seq<u8> {
        self.bytes@
    }
}

impl Clone for PublicKey {
    /// A copy of the key, with the same bytes.
    fn clone(&self) -> (cloned: Self)
        ensures
            cloned@ == self@,
    {
        Self { bytes: self.bytes.clone() }
    }
}

impl PublicKey {
    /// The public key that a peer sent as `bytes`.
    pub fn from_bytes(bytes: Vec<u8>) -> (key: Self)
        ensures
            key@ == bytes@,
    {
        Self { bytes }
    }

    /// The bytes to send to the peer.
    pub fn as_bytes(&self) -> (bytes: &[u8])
        ensures
            bytes@ == self@,
    {
        self.bytes.as_slice()
    }
}

/// A fresh X25519 key pair: a private key for one agreement, and the public
/// key of `PUBLIC_KEY_LEN` bytes that belongs to it.
pub fn key_pair() -> (pair: (EphemeralPrivateKey, PublicKey))
    ensures
        pair.1@ == x25519_public(pair.0),
        pair.1@.len() == PUBLIC_KEY_LEN,
{
    let (private_key, public_key) = generate_x25519();
    (private_key, PublicKey::from_bytes(public_key))
}

/// The secret that two parties share after an X25519 agreement. It lives in
/// memory only, for as long as this value does.
#[derive(Debug)]
pub struct SharedKey {
    shared_key: Vec<u8>,
}

impl View for SharedKey {
    type V = Seq<u8>;

    /// The bytes of the secret.
    closed spec fn view(&self) -> Seq<u8> {
        self.shared_key@
    }
}

impl SharedKey {
    /// The AES key that the slow derivation gives for a secret and a salt:
    /// scrypt with `N = 2^12`, `r = 8`, `p = 1`, to `KEY_LEN` bytes.
    pub open spec fn slow_key(secret: Seq<u8>, salt: Seq<u8>) -> Seq<u8> {
        scrypt_output(secret, salt, SCRYPT_LOG_N, SCRYPT_R, SCRYPT_P, KEY_LEN as nat)
    }

    /// The AES key that the fast derivation gives for a secret and a salt:
    /// HKDF with SHA-256 and an empty info string, to `KEY_LEN` bytes.
    pub open spec fn fast_key(secret: Seq<u8>, salt: Seq<u8>) -> Seq<u8> {
        hkdf_sha256_output(salt, secret, Seq::<u8>::empty(), KEY_LEN as nat)
    }

    /// The shared key for what the agreement gave: the secret as it is, or
    /// `SharedKeyError` with the agreement's error. No secret is ever made up
    /// in place of one that was refused.
    pub fn from_agreement(outcome: Result<Vec<u8>, Unspecified>) -> (r: Result<
        Self,
        OblivionException,
    >)
        ensures
            match outcome {
                Ok(secret) => r matches Ok(shared) && shared@ == secret@,
                Err(e) => r matches Err(error) && error == (OblivionException::SharedKeyError {
                    e,
                }),
            },
    {
        match outcome {
            Ok(shared_key) => Ok(Self { shared_key }),
            Err(e) => Err(OblivionException::SharedKeyError { e }),
        }
    }

    /// Agrees on a secret with the peer whose public key is `public_key`. The
    /// private key is used up.
    ///
    /// The shared key holds the secret of the X25519 agreement wherever there
    /// is one. Fails with `SharedKeyError` exactly where the agreement is
    /// refused: the peer's key is not of `PUBLIC_KEY_LEN` bytes, or it is a
    /// point of small order, with which the secret would be all zeros. A
    /// private key of another curve than X25519 is refused in the same way.
    pub fn new(private_key: EphemeralPrivateKey, public_key: &PublicKey) -> (r: Result<
        Self,
        OblivionException,
    >)
        ensures
            match r {
                Ok(shared) => x25519_agreed(private_key, public_key@) == Some(shared@),
                Err(e) => e is SharedKeyError && x25519_agreed(private_key, public_key@) is None,
            },
            r matches Ok(shared) ==> shared@.len() == SHARED_SECRET_LEN && !all_zero(shared@),
            r is Ok ==> public_key@.len() == PUBLIC_KEY_LEN,
    {
        let outcome = agree_x25519(private_key, public_key.as_bytes());
        Self::from_agreement(outcome)
    }

    /// The derived key for what scrypt gave: the key as it is, or
    /// `InvalidOutputLen` with scrypt's error.
    pub fn key_from_scrypt(outcome: Result<Vec<u8>, InvalidOutputLen>) -> (r: Result<
        Vec<u8>,
        OblivionException,
    >)
        ensures
            match outcome {
                Ok(key) => r == Ok::<Vec<u8>, OblivionException>(key),
                Err(e) => r == Err::<Vec<u8>, OblivionException>(
                    OblivionException::InvalidOutputLen { e },
                ),
            },
    {
        match outcome {
            Ok(key) => Ok(key),
            Err(e) => Err(OblivionException::InvalidOutputLen { e }),
        }
    }

    /// Derives an AES key of `KEY_LEN` bytes from the secret and `salt` by
    /// scrypt. With the fixed parameters and length the derivation always
    /// succeeds; were scrypt ever to refuse the length, the error would be
    /// `InvalidOutputLen`.
    pub fn scrypt(&mut self, salt: &[u8]) -> (r: Result<Vec<u8>, OblivionException>)
        ensures
            final(self)@ == old(self)@,
            r matches Ok(key) && key@.len() == KEY_LEN && key@ == Self::slow_key(
                old(self)@,
                salt@,
            ),
    {
        proof {
            lemma2_to64();
        }
        let outcome = scrypt_derive(
            self.shared_key.as_slice(),
            salt,
            SCRYPT_LOG_N,
            SCRYPT_R,
            SCRYPT_P,
            KEY_LEN,
        );
        Self::key_from_scrypt(outcome)
    }

    /// Derives an AES key of `KEY_LEN` bytes from the secret and `salt` by
    /// HKDF with SHA-256.
    ///
    /// The info string is empty: the key serves one purpose. Two purposes need
    /// two info strings, or one key would serve both.
    pub fn hkdf(&mut self, salt: &[u8]) -> (key: [u8; 16])
        ensures
            final(self)@ == old(self)@,
            key@ == Self::fast_key(old(self)@, salt@),
    {
        let info: [u8; 0] = [];
        assert(info@ =~= Seq::<u8>::empty());
        hkdf_sha256::<16>(salt, self.shared_key.as_slice(), info.as_slice())
    }
}

/// Determinism of derivation: equal secrets and equal salts give equal keys,
/// by the slow route and by the fast one.
pub proof fn lemma_derivation_is_deterministic(
    secret_a: Seq<u8>,
    salt_a: Seq<u8>,
    secret_b: Seq<u8>,
    salt_b: Seq<u8>,
)
    requires
        secret_a == secret_b,
        salt_a == salt_b,
    ensures
        SharedKey::slow_key(secret_a, salt_a) == SharedKey::slow_key(secret_b, salt_b),
        SharedKey::fast_key(secret_a, salt_a) == SharedKey::fast_key(secret_b, salt_b),
{
}

} // verus!
