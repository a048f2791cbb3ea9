//! Authenticated encryption with AES-128 in GCM mode (96-bit nonce, 128-bit
//! tag). The cipher comes from the `aes-gcm` crate.

use aes_gcm::aead::Aead;
use aes_gcm::aead::Payload;
use aes_gcm::Aes128Gcm;
use aes_gcm::KeyInit;
use vstd::prelude::*;

verus! {

/// Length of a cipher key in bytes.
pub const KEY_LEN: usize = 16;

/// Length of a nonce in bytes.
pub const NONCE_LEN: usize = 12;

/// Length of the authentication tag that follows the ciphertext.
pub const TAG_LEN: usize = 16;

/// Longest message and longest associated data the cipher accepts.
pub const MAX_INPUT: u64 = 0x10_0000_0000;

/// The opaque failure value of the `aes-gcm` crate.
#[verifier::external_type_specification]
#[verifier::external_body]
pub struct ExCipherError(aes_gcm::Error);

/// Ciphertext and tag that AES-128-GCM produces for a message.
pub uninterp spec fn sealed(key: Seq<u8>, nonce: Seq<u8>, aad: Seq<u8>, msg: Seq<u8>) -> Seq<u8>;

/// Plaintext that AES-128-GCM recovers from ciphertext and tag, or `None`
/// where the tag does not verify.
pub uninterp spec fn opened(key: Seq<u8>, nonce: Seq<u8>, aad: Seq<u8>, boxed: Seq<u8>) -> Option<
    Seq<u8>,
>;

/// Calls `Aes128Gcm::encrypt` of the `aes-gcm` crate. Trusted: on success the
/// result is the ciphertext followed by the 16-byte tag, and decrypting it
/// under the same key, nonce and associated data gives the message back; the
/// call fails only where message or associated data exceed the cipher's limit.
#[verifier::external_body]
pub(crate) fn gcm_encrypt(key: &[u8], nonce: &[u8], aad: &[u8], msg: &[u8]) -> (r: Result<
    Vec<u8>,
    aes_gcm::Error,
>)
    requires
        key@.len() == KEY_LEN,
        nonce@.len() == NONCE_LEN,
    ensures
        r matches Ok(boxed) ==> boxed@ == sealed(key@, nonce@, aad@, msg@) && boxed@.len()
            == msg@.len() + TAG_LEN && opened(key@, nonce@, aad@, boxed@) == Some(msg@),
        msg@.len() <= MAX_INPUT && aad@.len() <= MAX_INPUT ==> r is Ok,
{
    Aes128Gcm::new(key.into()).encrypt(nonce.into(), Payload { msg, aad })
}

/// Calls `Aes128Gcm::decrypt` of the `aes-gcm` crate. Trusted: the call
/// succeeds exactly where the tag verifies, and then gives the plaintext,
/// which is 16 bytes shorter than the input.
#[verifier::external_body]
pub(crate) fn gcm_decrypt(key: &[u8], nonce: &[u8], aad: &[u8], boxed: &[u8]) -> (r: Result<
    Vec<u8>,
    aes_gcm::Error,
>)
    requires
        key@.len() == KEY_LEN,
        nonce@.len() == NONCE_LEN,
    ensures
        r is Ok <==> opened(key@, nonce@, aad@, boxed@) is Some,
        r matches Ok(msg) ==> opened(key@, nonce@, aad@, boxed@) == Some(msg@) && msg@.len()
            + TAG_LEN == boxed@.len(),
{
    Aes128Gcm::new(key.into()).decrypt(nonce.into(), Payload { msg: boxed, aad })
}

/// Why sealing or opening did not give a result.
#[derive(Clone, Copy, Debug, PartialEq, Eq, Structural)]
pub enum AeadError {
    /// The tag did not verify, or an input exceeded the cipher's limit.
    AuthFailure,
}

/// What `decrypt` returns: the plaintext where the tag verifies.
pub open spec fn decrypt_spec(key: Seq<u8>, nonce: Seq<u8>, aad: Seq<u8>, boxed: Seq<u8>) -> Result<
    Seq<u8>,
    AeadError,
> {
    match opened(key, nonce, aad, boxed) {
        Some(msg) => Ok(msg),
        None => Err(AeadError::AuthFailure),
    }
}

/// The view of a result over byte vectors.
pub open spec fn bytes_result(r: Result<Vec<u8>, AeadError>) -> Result<Seq<u8>, AeadError> {
    match r {
        Ok(v) => Ok(v@),
        Err(e) => Err(e),
    }
}

/// What is returned for each outcome of the cipher.
pub fn outcome(r: Result<Vec<u8>, aes_gcm::Error>) -> (out: Result<Vec<u8>, AeadError>)
    ensures
        match r {
            Ok(v) => out == Ok::<Vec<u8>, AeadError>(v),
            Err(_) => out == Err::<Vec<u8>, AeadError>(AeadError::AuthFailure),
        },
{
    match r {
        Ok(v) => Ok(v),
        Err(_) => Err(AeadError::AuthFailure),
    }
}

/// Opens ciphertext-with-tag under a 16-byte key and a 12-byte nonce. A tag
/// that does not verify is an authentication failure; no plaintext is given.
pub fn decrypt(key: &[u8], nonce: &[u8], aad: &[u8], boxed: &[u8]) -> (r: Result<Vec<u8>, AeadError>)
    requires
        key@.len() == KEY_LEN,
        nonce@.len() == NONCE_LEN,
    ensures
        bytes_result(r) == decrypt_spec(key@, nonce@, aad@, boxed@),
        r matches Ok(msg) ==> msg@.len() + TAG_LEN == boxed@.len(),
{
    outcome(gcm_decrypt(key, nonce, aad, boxed))
}

/// Seals a message under a 16-byte key and a 12-byte nonce. Succeeds on every
/// message and associated data within the cipher's limit; the result opens to
/// the message again.
pub fn encrypt(key: &[u8], nonce: &[u8], aad: &[u8], msg: &[u8]) -> (r: Result<Vec<u8>, AeadError>)
    requires
        key@.len() == KEY_LEN,
        nonce@.len() == NONCE_LEN,
    ensures
        msg@.len() <= MAX_INPUT && aad@.len() <= MAX_INPUT ==> r is Ok,
        r matches Ok(boxed) ==> boxed@ == sealed(key@, nonce@, aad@, msg@) && boxed@.len()
            == msg@.len() + TAG_LEN && decrypt_spec(key@, nonce@, aad@, boxed@) == Ok::<
            Seq<u8>,
            AeadError,
        >(msg@),
{
    outcome(gcm_encrypt(key, nonce, aad, msg))
}

} // verus!
