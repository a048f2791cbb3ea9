//! Keyed derivation of key and nonce material: HMAC with SHA-256, the secret
//! as the key and the salts, concatenated in order, as the message.

use crate::digest::concat;
use crate::digest::join;
use crate::digest::parts_of;
use crate::digest::sha256_digest;
use crate::digest::sha256_of;
use vstd::prelude::*;
use vstd::slice::slice_to_vec;

verus! {

/// Block length of SHA-256 in bytes.
pub const BLOCK_LEN: usize = 64;

/// Length of a derived digest in bytes.
pub const DIGEST_LEN: usize = 32;

/// The key as HMAC uses it: hashed first where it is longer than a block.
pub open spec fn block_key(secret: Seq<u8>) -> Seq<u8> {
    if secret.len() > BLOCK_LEN {
        sha256_of(secret)
    } else {
        secret
    }
}

/// The key, padded with zeros to a block, with every byte XORed with `pad`.
pub open spec fn padded(key: Seq<u8>, pad: u8) -> Seq<u8> {
    Seq::new(
        BLOCK_LEN as nat,
        |i: int|
            if i < key.len() {
                key[i] ^ pad
            } else {
                pad
            },
    )
}

/// HMAC-SHA256 of `msg` under `secret`.
pub open spec fn hmac_sha256(secret: Seq<u8>, msg: Seq<u8>) -> Seq<u8> {
    let key = block_key(secret);
    sha256_of(padded(key, 0x5c) + sha256_of(padded(key, 0x36) + msg))
}

/// The digest derived from a secret and its salts.
pub open spec fn derive_spec(secret: Seq<u8>, salts: Seq<Seq<u8>>) -> Seq<u8> {
    hmac_sha256(secret, concat(salts))
}

/// Derivation is a function of its inputs: equal secrets and equal salts
/// give equal digests.
pub proof fn derive_is_deterministic(
    secret_a: Seq<u8>,
    salts_a: Seq<Seq<u8>>,
    secret_b: Seq<u8>,
    salts_b: Seq<Seq<u8>>,
)
    requires
        secret_a == secret_b,
        salts_a == salts_b,
    ensures
        derive_spec(secret_a, salts_a) == derive_spec(secret_b, salts_b),
{
}

fn pad_block(key: &[u8], pad: u8) -> (out: Vec<u8>)
    requires
        key@.len() <= BLOCK_LEN,
    ensures
        out@ == padded(key@, pad),
{
    let mut out: Vec<u8> = Vec::new();
    let mut i: usize = 0;
    while i < BLOCK_LEN
        invariant
            i <= BLOCK_LEN,
            key@.len() <= BLOCK_LEN,
            out@.len() == i,
            forall|j: int| 0 <= j < i ==> out@[j] == padded(key@, pad)[j],
        decreases BLOCK_LEN - i,
    {
        let b: u8 = if i < key.len() {
            key[i] ^ pad
        } else {
            pad
        };
        out.push(b);
        i += 1;
    }
    assert(out@ =~= padded(key@, pad));
    out
}

/// HMAC-SHA256 of `msg` under `secret`, 32 bytes.
pub fn hmac(secret: &[u8], msg: &[u8]) -> (out: Vec<u8>)
    ensures
        out@ == hmac_sha256(secret@, msg@),
        out@.len() == DIGEST_LEN,
{
    let key: Vec<u8> = if secret.len() > BLOCK_LEN {
        sha256_digest(secret)
    } else {
        slice_to_vec(secret)
    };
    assert(key@ == block_key(secret@));
    let mut inner = pad_block(key.as_slice(), 0x36);
    inner.extend_from_slice(msg);
    assert(inner@ == padded(key@, 0x36) + msg@);
    let inner_digest = sha256_digest(inner.as_slice());
    let mut outer = pad_block(key.as_slice(), 0x5c);
    outer.extend_from_slice(inner_digest.as_slice());
    assert(outer@ == padded(key@, 0x5c) + inner_digest@);
    sha256_digest(outer.as_slice())
}

/// Derives 32 bytes from a secret and an ordered list of salts. The result
/// is a function of the inputs alone: equal inputs give equal digests.
pub fn derive(secret: &[u8], salts: &Vec<Vec<u8>>) -> (out: Vec<u8>)
    ensures
        out@ == derive_spec(secret@, parts_of(salts@)),
        out@.len() == DIGEST_LEN,
{
    let msg = join(salts);
    hmac(secret, msg.as_slice())
}

/// The first `n` bytes of `data`.
pub fn prefix(data: &Vec<u8>, n: usize) -> (out: Vec<u8>)
    requires
        n <= data@.len(),
    ensures
        out@ == data@.take(n as int),
{
    let mut out: Vec<u8> = Vec::new();
    let mut i: usize = 0;
    while i < n
        invariant
            i <= n <= data@.len(),
            out@ == data@.take(i as int),
        decreases n - i,
    {
        out.push(data[i]);
        proof {
            assert(data@.take(i + 1) =~= data@.take(i as int).push(data@[i as int]));
        }
        i += 1;
    }
    out
}

} // verus!
