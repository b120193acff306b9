//! Authenticated encryption of byte payloads with AES-128-GCM.
//!
//! Every call is a transaction of its own: `encrypt` draws a fresh nonce and
//! hands it out with the ciphertext and the tag, `decrypt` opens with the nonce
//! that the envelope carries. There is no associated data and no counter.
//!
//! A nonce of 96 random bits is safe for a bounded number of messages only:
//! rotate the key well before 2^32 messages have been sealed under it.

use crate::exceptions::OblivionException;
use crate::random::random_bytes;
use crate::OblivionData;
use ring::aead::{
    Aad, BoundKey, Nonce, NonceSequence, OpeningKey, SealingKey, UnboundKey, AES_128_GCM,
};
use ring::error::Unspecified;
use std::string::FromUtf8Error;
use vstd::prelude::*;
use vstd::slice::slice_to_vec;
use vstd::utf8::{
    decode_utf8, encode_utf8, encode_utf8_decode_utf8, encode_utf8_valid_utf8, valid_utf8,
};

verus! {

/// The length of an AES-128 key, in bytes.
pub const KEY_LEN: usize = 16;

/// The length of a nonce, in bytes.
pub const NONCE_LEN: usize = 12;

/// The length of an authentication tag, in bytes.
pub const TAG_LEN: usize = 16;

/// The longest plaintext that one nonce can cover: GCM counts blocks of 16
/// bytes in 32 bits, and two of the counter's values are spent on the tag.
pub const MAX_PLAINTEXT_LEN: u64 = 68_719_476_704;

/// A ciphertext and its tag, in this order.
pub type Sealed = (Vec<u8>, Vec<u8>);

/// `ring::aead::Nonce`: a nonce that is ready for one sealing or opening.
/// Opaque to the verifier.
#[verifier::external_type_specification]
#[verifier::external_body]
pub struct ExNonce(Nonce);

/// The ciphertext and the tag, in this order, that AES-128-GCM gives for
/// `plaintext` under `key` and `nonce` with no associated data. It stands for
/// what `ring::aead::SealingKey::seal_in_place_separate_tag` leaves in the
/// buffer and returns; it means something only where sealing succeeds.
pub uninterp spec fn aes_128_gcm_sealed(key: Seq<u8>, nonce: Seq<u8>, plaintext: Seq<u8>) -> (
    Seq<u8>,
    Seq<u8>,
);

/// The plaintext that AES-128-GCM gives for a ciphertext followed by its tag,
/// under `key` and `nonce` with no associated data, or `None` where it refuses.
/// It stands for the outcome of `ring::aead::OpeningKey::open_in_place`.
pub uninterp spec fn aes_128_gcm_opened(
    key: Seq<u8>,
    nonce: Seq<u8>,
    ciphertext_and_tag: Seq<u8>,
) -> Option<Seq<u8>>;

/// The tag that AES-128-GCM computes over a ciphertext under `key` and `nonce`
/// with no associated data. Sealing returns it; opening computes it over the
/// ciphertext it was given and compares it with the tag it was given (in
/// *ring*, `Algorithm::open_within`).
pub uninterp spec fn aes_128_gcm_tag(key: Seq<u8>, nonce: Seq<u8>, ciphertext: Seq<u8>) -> Seq<u8>;

/// The bytes that a nonce holds: what `ring::aead::Nonce::as_ref` shows of it.
pub uninterp spec fn nonce_bytes(nonce: Nonce) -> Seq<u8>;

/// `ring::aead::Nonce::try_assume_unique_for_key`.
///
/// Trusted: it takes exactly the values of `NONCE_LEN` bytes, and the nonce
/// holds the bytes it was made from.
pub assume_specification[ Nonce::try_assume_unique_for_key ](value: &[u8]) -> (r: Result<
    Nonce,
    Unspecified,
>)
    ensures
        r is Ok <==> value@.len() == NONCE_LEN,
        r matches Ok(nonce) ==> nonce_bytes(nonce) == value@,
;

/// `ring::error::Unspecified`, the one value of *ring*'s error, for a refusal
/// that this library pronounces itself. Nothing is claimed of it.
#[verifier::external_body]
fn unspecified() -> Unspecified {
    Unspecified
}

/// `String::from_utf8`.
///
/// Trusted: it succeeds exactly on well-formed UTF-8, and the text it returns
/// is the one that these bytes encode.
#[verifier::external_body]
fn string_from_utf8(bytes: Vec<u8>) -> (r: Result<String, FromUtf8Error>)
    ensures
        r is Ok <==> valid_utf8(bytes@),
        r matches Ok(text) ==> encode_utf8(text@) == bytes@,
{
    String::from_utf8(bytes)
}

/// The nonce sequence of a key that is used for one message: it holds the one
/// nonce of that message.
///
/// The sealing or opening key asks it once. A value of any other length than
/// `NONCE_LEN` is no nonce, and the operation fails there.
pub struct AbsoluteNonceSequence<'a> {
    nonce: &'a [u8],
}

impl<'a> View for AbsoluteNonceSequence<'a> {
    type V = Seq<u8>;

    /// The bytes of the nonce.
    closed spec fn view(&self) -> Seq<u8> {
        self.nonce@
    }
}

impl<'a> AbsoluteNonceSequence<'a> {
    /// A sequence that yields `nonce`.
    pub fn new(nonce: &'a [u8]) -> (sequence: Self)
        ensures
            sequence@ == nonce@,
    {
        Self { nonce }
    }
}

impl<'a> NonceSequence for AbsoluteNonceSequence<'a> {
    /// The nonce, made from the bytes that the sequence holds. The sequence
    /// stays as it is.
    fn advance(&mut self) -> (r: Result<Nonce, Unspecified>)
        ensures
            r is Ok <==> old(self)@.len() == NONCE_LEN,
            r matches Ok(nonce) ==> nonce_bytes(nonce) == old(self)@,
            final(self)@ == old(self)@,
    {
        Nonce::try_assume_unique_for_key(self.nonce)
    }
}

/// `ring::aead::UnboundKey::new` for AES-128-GCM, `SealingKey::new` and
/// `SealingKey::seal_in_place_separate_tag` with `Aad::empty()`. The key draws
/// its nonce from `nonces` by `advance`, which hands out the bytes of
/// `nonces@`.
///
/// Trusted:
/// - sealing succeeds exactly where the key has `KEY_LEN` bytes, the nonce
///   `NONCE_LEN` bytes and the plaintext at most `MAX_PLAINTEXT_LEN` bytes;
/// - the ciphertext and the tag are those of AES-128-GCM, the ciphertext as
///   long as the plaintext and the tag of `TAG_LEN` bytes;
/// - the tag is the one that AES-128-GCM computes over the ciphertext;
/// - opening that ciphertext followed by that tag, under the same key and
///   nonce, gives the plaintext back. This is what makes the pair an
///   authenticated encryption: *ring* describes sealing as overwriting the
///   plaintext with the ciphertext and returning the tag, and opening as
///   taking the ciphertext followed by the tag and leaving the plaintext.
#[verifier::external_body]
fn seal_in_place(key: &[u8], nonces: AbsoluteNonceSequence<'_>, plaintext: Vec<u8>) -> (r: Result<
    Sealed,
    Unspecified,
>)
    ensures
        r is Ok <==> Chipher::can_seal(plaintext@, key@, nonces@),
        r matches Ok(sealed) ==> (sealed.0@, sealed.1@) == aes_128_gcm_sealed(
            key@,
            nonces@,
            plaintext@,
        ),
        r matches Ok(sealed) ==> sealed.0@.len() == plaintext@.len() && sealed.1@.len() == TAG_LEN,
        r matches Ok(sealed) ==> sealed.1@ == aes_128_gcm_tag(key@, nonces@, sealed.0@),
        r matches Ok(sealed) ==> aes_128_gcm_opened(key@, nonces@, sealed.0@ + sealed.1@) == Some(
            plaintext@,
        ),
{
    let mut sealing_key = SealingKey::new(UnboundKey::new(&AES_128_GCM, key)?, nonces);
    let mut in_out = plaintext;
    let tag = sealing_key.seal_in_place_separate_tag(Aad::empty(), &mut in_out)?;
    Ok((in_out, tag.as_ref().to_vec()))
}

/// `ring::aead::UnboundKey::new` for AES-128-GCM, `OpeningKey::new` and
/// `OpeningKey::open_in_place` with `Aad::empty()`. The key draws its nonce
/// from `nonces` by `advance`, which hands out the bytes of `nonces@`.
///
/// Trusted:
/// - the outcome is that of AES-128-GCM on these bytes;
/// - it opens only under a key of `KEY_LEN` bytes and a nonce of `NONCE_LEN`
///   bytes, and the plaintext is as long as what stands before the last
///   `TAG_LEN` bytes, which are the tag;
/// - it opens only where that tag is the one that AES-128-GCM computes over
///   what stands before it.
#[verifier::external_body]
fn open_in_place(
    key: &[u8],
    nonces: AbsoluteNonceSequence<'_>,
    ciphertext_and_tag: Vec<u8>,
) -> (r: Result<Vec<u8>, Unspecified>)
    ensures
        match r {
            Ok(plaintext) => {
                &&& aes_128_gcm_opened(key@, nonces@, ciphertext_and_tag@) == Some(plaintext@)
                &&& key@.len() == KEY_LEN
                &&& nonces@.len() == NONCE_LEN
                &&& ciphertext_and_tag@.len() == plaintext@.len() + TAG_LEN
                &&& ciphertext_and_tag@.skip(plaintext@.len() as int) == aes_128_gcm_tag(
                    key@,
                    nonces@,
                    ciphertext_and_tag@.take(plaintext@.len() as int),
                )
            },
            Err(_) => aes_128_gcm_opened(key@, nonces@, ciphertext_and_tag@) is None,
        },
{
    let mut opening_key = OpeningKey::new(UnboundKey::new(&AES_128_GCM, key)?, nonces);
    let mut in_out = ciphertext_and_tag;
    let plaintext = opening_key.open_in_place(Aad::empty(), &mut in_out)?;
    Ok(plaintext.to_vec())
}

/// Authenticated encryption under an AES-128 key.
pub struct Chipher;

impl Chipher {
    /// Whether AES-128-GCM seals `plaintext` under `key` and `nonce`.
    pub open spec fn can_seal(plaintext: Seq<u8>, key: Seq<u8>, nonce: Seq<u8>) -> bool {
        &&& key.len() == KEY_LEN
        &&& nonce.len() == NONCE_LEN
        &&& plaintext.len() <= MAX_PLAINTEXT_LEN
    }

    /// Whether `envelope` is the sealing of `plaintext` under `key` and under
    /// the nonce that the envelope carries.
    pub open spec fn is_sealing_of(
        envelope: (Seq<u8>, Seq<u8>, Seq<u8>),
        plaintext: Seq<u8>,
        key: Seq<u8>,
    ) -> bool {
        &&& Self::can_seal(plaintext, key, envelope.2)
        &&& (envelope.0, envelope.1) == aes_128_gcm_sealed(key, envelope.2, plaintext)
        &&& envelope.0.len() == plaintext.len()
        &&& envelope.1.len() == TAG_LEN
        &&& envelope.1 == aes_128_gcm_tag(key, envelope.2, envelope.0)
        &&& aes_128_gcm_opened(key, envelope.2, envelope.0 + envelope.1) == Some(plaintext)
    }

    /// The plaintext that `envelope` opens to under `key`, or `None` where it
    /// does not open: the tag must have `TAG_LEN` bytes and be the one that
    /// AES-128-GCM computes over the ciphertext under the envelope's nonce,
    /// and AES-128-GCM must accept the ciphertext followed by the tag.
    pub open spec fn decrypted(envelope: (Seq<u8>, Seq<u8>, Seq<u8>), key: Seq<u8>) -> Option<
        Seq<u8>,
    > {
        if envelope.1.len() == TAG_LEN && envelope.1 == aes_128_gcm_tag(
            key,
            envelope.2,
            envelope.0,
        ) {
            aes_128_gcm_opened(key, envelope.2, envelope.0 + envelope.1)
        } else {
            None
        }
    }

    /// The envelope for what sealing under `nonce` gave: the ciphertext, the
    /// tag and the nonce on success, `EncryptError` with the AEAD's error
    /// otherwise.
    pub fn envelope_from_seal(outcome: Result<Sealed, Unspecified>, nonce: Vec<u8>) -> (r: Result<
        OblivionData,
        OblivionException,
    >)
        ensures
            match outcome {
                Ok(sealed) => r == Ok::<OblivionData, OblivionException>(
                    (sealed.0, sealed.1, nonce),
                ),
                Err(e) => r == Err::<OblivionData, OblivionException>(
                    OblivionException::EncryptError { e },
                ),
            },
    {
        match outcome {
            Ok(sealed) => Ok((sealed.0, sealed.1, nonce)),
            Err(e) => Err(OblivionException::EncryptError { e }),
        }
    }

    /// The plaintext for what opening gave, or `DecryptError` with the AEAD's
    /// error.
    pub fn plaintext_from_open(outcome: Result<Vec<u8>, Unspecified>) -> (r: Result<
        Vec<u8>,
        OblivionException,
    >)
        ensures
            match outcome {
                Ok(plaintext) => r == Ok::<Vec<u8>, OblivionException>(plaintext),
                Err(e) => r == Err::<Vec<u8>, OblivionException>(
                    OblivionException::DecryptError { e },
                ),
            },
    {
        match outcome {
            Ok(plaintext) => Ok(plaintext),
            Err(e) => Err(OblivionException::DecryptError { e }),
        }
    }

    /// Seals `data` under `aes_key` and the given nonce.
    ///
    /// The nonce must never have been used with this key before: a second
    /// message under the same key and nonce gives both messages away.
    /// [`Chipher::encrypt`] draws the nonce at random and is the function to
    /// call; this one is for a caller that has a nonce discipline of its own.
    ///
    /// Fails with `EncryptError` exactly where the key is not of `KEY_LEN`
    /// bytes, the nonce not of `NONCE_LEN` bytes, or the data longer than
    /// `MAX_PLAINTEXT_LEN`.
    pub fn encrypt_with_nonce(data: Vec<u8>, aes_key: &[u8], nonce: Vec<u8>) -> (r: Result<
        OblivionData,
        OblivionException,
    >)
        ensures
            r is Ok <==> Self::can_seal(data@, aes_key@, nonce@),
            r matches Ok(envelope) ==> envelope.2@ == nonce@ && Self::is_sealing_of(
                envelope@,
                data@,
                aes_key@,
            ),
            r matches Err(e) ==> e is EncryptError,
    {
        let outcome = seal_in_place(aes_key, AbsoluteNonceSequence::new(nonce.as_slice()), data);
        Self::envelope_from_seal(outcome, nonce)
    }

    /// Seals `data` under `aes_key` and a fresh random nonce. The envelope
    /// holds the ciphertext, which is as long as the data, then the tag of
    /// `TAG_LEN` bytes, then the nonce of `NONCE_LEN` bytes.
    ///
    /// Fails with `EncryptError` exactly where the key is not of `KEY_LEN`
    /// bytes or the data is longer than `MAX_PLAINTEXT_LEN`.
    pub fn encrypt(data: Vec<u8>, aes_key: &[u8]) -> (r: Result<OblivionData, OblivionException>)
        ensures
            r is Ok <==> aes_key@.len() == KEY_LEN && data@.len() <= MAX_PLAINTEXT_LEN,
            r matches Ok(envelope) ==> Self::is_sealing_of(envelope@, data@, aes_key@),
            r matches Err(e) ==> e is EncryptError,
    {
        let nonce = random_bytes(NONCE_LEN);
        Self::encrypt_with_nonce(data, aes_key, nonce)
    }

    /// Seals the UTF-8 bytes of `data`, as [`Chipher::encrypt`] does.
    pub fn encrypt_str(data: &str, aes_key: &[u8]) -> (r: Result<OblivionData, OblivionException>)
        ensures
            r is Ok <==> aes_key@.len() == KEY_LEN && encode_utf8(data@).len()
                <= MAX_PLAINTEXT_LEN,
            r matches Ok(envelope) ==> Self::is_sealing_of(
                envelope@,
                encode_utf8(data@),
                aes_key@,
            ),
            r matches Err(e) ==> e is EncryptError,
    {
        let bytes = slice_to_vec(data.as_bytes());
        Chipher::encrypt(bytes, aes_key)
    }

    /// Opens an envelope under `aes_key` and the nonce that it carries, and
    /// returns the plaintext.
    ///
    /// Fails with `DecryptError`, and gives no plaintext, where the key is not
    /// of `KEY_LEN` bytes, the nonce not of `NONCE_LEN` bytes, the tag not of
    /// `TAG_LEN` bytes, or the tag does not authenticate the ciphertext under
    /// this key and nonce. The error is the same for all of them.
    pub fn decrypt(data: OblivionData, aes_key: &[u8]) -> (r: Result<Vec<u8>, OblivionException>)
        ensures
            match r {
                Ok(plaintext) => {
                    &&& Self::decrypted(data@, aes_key@) == Some(plaintext@)
                    &&& plaintext@.len() == data.0@.len()
                    &&& aes_key@.len() == KEY_LEN
                    &&& data.1@.len() == TAG_LEN
                    &&& data.2@.len() == NONCE_LEN
                },
                Err(e) => e is DecryptError && Self::decrypted(data@, aes_key@) is None,
            },
    {
        let (ciphertext, tag, nonce) = data;
        if tag.len() != TAG_LEN {
            return Err(OblivionException::DecryptError { e: unspecified() });
        }
        let mut in_out = ciphertext;
        let mut tag = tag;
        in_out.append(&mut tag);
        let ghost joined = in_out@;
        assert(joined.take(data.0@.len() as int) =~= data.0@);
        assert(joined.skip(data.0@.len() as int) =~= data.1@);
        let outcome = open_in_place(aes_key, AbsoluteNonceSequence::new(nonce.as_slice()), in_out);
        Self::plaintext_from_open(outcome)
    }

    /// The text that `bytes` encode, or `FromUtf8Error` where they are not
    /// well-formed UTF-8.
    pub fn text_from_plaintext(bytes: Vec<u8>) -> (r: Result<String, OblivionException>)
        ensures
            match r {
                Ok(text) => valid_utf8(bytes@) && text@ == decode_utf8(bytes@),
                Err(e) => e is FromUtf8Error && !valid_utf8(bytes@),
            },
    {
        match string_from_utf8(bytes) {
            Ok(text) => {
                proof {
                    encode_utf8_decode_utf8(text@);
                }
                Ok(text)
            },
            Err(e) => Err(OblivionException::FromUtf8Error { e }),
        }
    }

    /// Opens an envelope as [`Chipher::decrypt`] does and reads the plaintext
    /// as UTF-8 text.
    ///
    /// Fails with `DecryptError` where the envelope does not open, and with
    /// `FromUtf8Error` where it opens to bytes that are no text.
    pub fn decrypt_as_str(data: OblivionData, aes_key: &[u8]) -> (r: Result<
        String,
        OblivionException,
    >)
        ensures
            match Self::decrypted(data@, aes_key@) {
                Some(plaintext) => match r {
                    Ok(text) => valid_utf8(plaintext) && text@ == decode_utf8(plaintext),
                    Err(e) => e is FromUtf8Error && !valid_utf8(plaintext),
                },
                None => r matches Err(e) && e is DecryptError,
            },
    {
        match Chipher::decrypt(data, aes_key) {
            Ok(plaintext) => Self::text_from_plaintext(plaintext),
            Err(e) => Err(e),
        }
    }
}

/// Round trip: an envelope that is the sealing of a plaintext under a key
/// opens, under the same key, to that plaintext.
pub proof fn lemma_decrypt_inverts_encrypt(
    plaintext: Seq<u8>,
    key: Seq<u8>,
    envelope: (Seq<u8>, Seq<u8>, Seq<u8>),
)
    requires
        Chipher::is_sealing_of(envelope, plaintext, key),
    ensures
        Chipher::decrypted(envelope, key) == Some(plaintext),
{
}

/// Tamper detection, for the tag: take the sealing of a plaintext under a key
/// and put any other tag in the place of its own, by flipping one bit or
/// otherwise. The envelope no longer opens under that key.
pub proof fn lemma_another_tag_is_refused(
    plaintext: Seq<u8>,
    key: Seq<u8>,
    envelope: (Seq<u8>, Seq<u8>, Seq<u8>),
    tag: Seq<u8>,
)
    requires
        Chipher::is_sealing_of(envelope, plaintext, key),
        tag != envelope.1,
    ensures
        Chipher::decrypted((envelope.0, tag, envelope.2), key) is None,
{
}

/// Nonces differ as the draws do. Take any number of sealings under one key,
/// where `envelopes[i]` is the sealing of `plaintexts[i]` under the draw
/// `draws[i]` and carries that draw, as [`Chipher::encrypt_with_nonce`]
/// returns it. Then no nonce occurs twice among the envelopes unless a draw
/// occurred twice.
pub proof fn lemma_nonces_differ_as_draws_do(
    key: Seq<u8>,
    plaintexts: Seq<Seq<u8>>,
    draws: Seq<Seq<u8>>,
    envelopes: Seq<(Seq<u8>, Seq<u8>, Seq<u8>)>,
)
    requires
        plaintexts.len() == envelopes.len(),
        draws.len() == envelopes.len(),
        forall|i: int|
            0 <= i < envelopes.len() ==> #[trigger] envelopes[i].2 == draws[i]
                && Chipher::is_sealing_of(envelopes[i], plaintexts[i], key),
        forall|i: int, j: int|
            0 <= i < j < draws.len() ==> #[trigger] draws[i] != #[trigger] draws[j],
    ensures
        forall|i: int, j: int|
            0 <= i < j < envelopes.len() ==> #[trigger] envelopes[i].2
                != #[trigger] envelopes[j].2,
        forall|i: int| 0 <= i < envelopes.len() ==> (#[trigger] envelopes[i]).2.len() == NONCE_LEN,
{
    assert forall|i: int, j: int| 0 <= i < j < envelopes.len() implies #[trigger] envelopes[i].2
        != #[trigger] envelopes[j].2 by {
        assert(envelopes[i].2 == draws[i]);
        assert(envelopes[j].2 == draws[j]);
    }
}

/// Round trip of text: an envelope that is the sealing of the UTF-8 bytes of a
/// text opens, under the same key, to bytes that are well-formed UTF-8 and
/// decode to that text.
pub proof fn lemma_decrypt_as_str_inverts_encrypt_str(
    text: Seq<char>,
    key: Seq<u8>,
    envelope: (Seq<u8>, Seq<u8>, Seq<u8>),
)
    requires
        Chipher::is_sealing_of(envelope, encode_utf8(text), key),
    ensures
        Chipher::decrypted(envelope, key) == Some(encode_utf8(text)),
        valid_utf8(encode_utf8(text)),
        decode_utf8(encode_utf8(text)) == text,
{
    encode_utf8_valid_utf8(text);
    encode_utf8_decode_utf8(text);
}

} // verus!
