//! The response header: two sealed frames, written before any relayed
//! byte, under keys derived from the command's own key and IV.

use crate::aead::decrypt_spec;
use crate::aead::encrypt;
use crate::aead::sealed;
use crate::aead::AeadError;
use crate::aead::KEY_LEN;
use crate::aead::NONCE_LEN;
use crate::digest::parts_of;
use crate::digest::sha256_digest;
use crate::digest::sha256_of;
use crate::header::Command;
use crate::kdf::derive_spec;
use crate::kdf::prefix;
use crate::salt::label_bytes;
use crate::salt::label_vec;
use crate::salt::Label;
use vstd::prelude::*;

verus! {

/// The plaintext of the length frame: the value 4, big-endian.
pub open spec fn length_plain() -> Seq<u8> {
    seq![0u8, 4u8]
}

/// The plaintext of the payload frame: the first option byte and three
/// zero bytes.
pub open spec fn payload_plain(options: Seq<u8>) -> Seq<u8> {
    seq![options[0], 0u8, 0u8, 0u8]
}

/// The data-level secret of a raw key or IV: the first 16 bytes of its
/// SHA-256 digest.
pub open spec fn data_secret_spec(raw: Seq<u8>) -> Seq<u8> {
    sha256_of(raw).take(16)
}

/// The first `n` bytes derived from a data-level secret for one purpose of
/// the response header. The label is the only salt.
pub open spec fn response_material(secret: Seq<u8>, label: Label, n: int) -> Seq<u8> {
    derive_spec(secret, seq![label_bytes(label)]).take(n)
}

/// The key of the length frame.
pub open spec fn length_key(cmd_key: Seq<u8>) -> Seq<u8> {
    response_material(data_secret_spec(cmd_key), Label::ResponseLengthKey, 16)
}

/// The nonce of the length frame.
pub open spec fn length_iv(cmd_iv: Seq<u8>) -> Seq<u8> {
    response_material(data_secret_spec(cmd_iv), Label::ResponseLengthIv, 12)
}

/// The key of the payload frame.
pub open spec fn payload_key(cmd_key: Seq<u8>) -> Seq<u8> {
    response_material(data_secret_spec(cmd_key), Label::ResponsePayloadKey, 16)
}

/// The nonce of the payload frame.
pub open spec fn payload_iv(cmd_iv: Seq<u8>) -> Seq<u8> {
    response_material(data_secret_spec(cmd_iv), Label::ResponsePayloadIv, 12)
}

/// The two frames of a response header, in the order in which they are
/// written.
#[derive(Debug)]
pub struct ResponseHeader {
    pub length: Vec<u8>,
    pub payload: Vec<u8>,
}

/// The data-level secret of a raw key or IV.
pub fn data_secret(raw: &[u8]) -> (out: Vec<u8>)
    ensures
        out@ == data_secret_spec(raw@),
        out@.len() == 16,
{
    let digest = sha256_digest(raw);
    prefix(&digest, 16)
}

/// Derives the first `n` bytes for one purpose of the response header.
pub fn response_key_material(secret: &[u8], label: Label, n: usize) -> (out: Vec<u8>)
    requires
        n <= 32,
    ensures
        out@ == response_material(secret@, label, n as int),
        out@.len() == n,
{
    let mut salts: Vec<Vec<u8>> = Vec::new();
    salts.push(label_vec(label));
    assert(parts_of(salts@) =~= seq![label_bytes(label)]);
    let digest = crate::kdf::derive(secret, &salts);
    prefix(&digest, n)
}

/// Builds the response header of a command: the sealed value 4, then the
/// sealed first option byte with three zero bytes. Always succeeds; each
/// frame opens under its key and nonce to its plaintext.
pub fn encode_response(cmd: &Command) -> (r: Result<ResponseHeader, AeadError>)
    requires
        cmd.wf(),
    ensures
        r is Ok,
        r matches Ok(h) ==> {
            &&& h.length@ == sealed(
                length_key(cmd.key@),
                length_iv(cmd.iv@),
                Seq::empty(),
                length_plain(),
            )
            &&& h.payload@ == sealed(
                payload_key(cmd.key@),
                payload_iv(cmd.iv@),
                Seq::empty(),
                payload_plain(cmd.options@),
            )
            &&& h.length@.len() == 18
            &&& h.payload@.len() == 20
            &&& decrypt_spec(length_key(cmd.key@), length_iv(cmd.iv@), Seq::empty(), h.length@)
                == Ok::<Seq<u8>, AeadError>(length_plain())
            &&& decrypt_spec(payload_key(cmd.key@), payload_iv(cmd.iv@), Seq::empty(), h.payload@)
                == Ok::<Seq<u8>, AeadError>(payload_plain(cmd.options@))
        },
{
    let key = data_secret(cmd.key.as_slice());
    let iv = data_secret(cmd.iv.as_slice());
    let none: Vec<u8> = Vec::new();
    assert(none@ =~= Seq::<u8>::empty());

    let len_key = response_key_material(key.as_slice(), Label::ResponseLengthKey, KEY_LEN);
    let len_iv = response_key_material(iv.as_slice(), Label::ResponseLengthIv, NONCE_LEN);
    let mut four: Vec<u8> = Vec::new();
    four.push(0u8);
    four.push(4u8);
    assert(four@ =~= length_plain());
    let length = match encrypt(
        len_key.as_slice(),
        len_iv.as_slice(),
        none.as_slice(),
        four.as_slice(),
    ) {
        Ok(v) => v,
        Err(e) => {
            return Err(e);
        },
    };

    let pay_key = response_key_material(key.as_slice(), Label::ResponsePayloadKey, KEY_LEN);
    let pay_iv = response_key_material(iv.as_slice(), Label::ResponsePayloadIv, NONCE_LEN);
    let mut ack: Vec<u8> = Vec::new();
    ack.push(cmd.options[0]);
    ack.push(0u8);
    ack.push(0u8);
    ack.push(0u8);
    assert(ack@ =~= payload_plain(cmd.options@));
    let payload = match encrypt(
        pay_key.as_slice(),
        pay_iv.as_slice(),
        none.as_slice(),
        ack.as_slice(),
    ) {
        Ok(v) => v,
        Err(e) => {
            return Err(e);
        },
    };
    Ok(ResponseHeader { length, payload })
}

} // verus!
