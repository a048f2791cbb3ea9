//! Unkeyed digests. The hash functions themselves come from the `sha2` and
//! `md-5` crates; the contracts here give their results a name.

use md5::Md5;
use sha2::Digest;
use sha2::Sha256;
use vstd::prelude::*;

verus! {

/// The SHA-256 digest of `data`.
pub uninterp spec fn sha256_of(data: Seq<u8>) -> Seq<u8>;

/// The MD5 digest of `data`.
pub uninterp spec fn md5_of(data: Seq<u8>) -> Seq<u8>;

/// Calls `Sha256::digest` of the `sha2` crate. Trusted: the result is the
/// SHA-256 digest of the input, which is always 32 bytes long.
#[verifier::external_body]
pub(crate) fn sha256_digest(data: &[u8]) -> (out: Vec<u8>)
    ensures
        out@ == sha256_of(data@),
        out@.len() == 32,
{
    Sha256::digest(data).to_vec()
}

/// Calls `Md5::digest` of the `md-5` crate. Trusted: the result is the MD5
/// digest of the input, which is always 16 bytes long.
#[verifier::external_body]
pub(crate) fn md5_digest(data: &[u8]) -> (out: Vec<u8>)
    ensures
        out@ == md5_of(data@),
        out@.len() == 16,
{
    Md5::digest(data).to_vec()
}

/// The concatenation of `parts`, in order.
pub open spec fn concat(parts: Seq<Seq<u8>>) -> Seq<u8>
    decreases parts.len(),
{
    if parts.len() == 0 {
        Seq::empty()
    } else {
        concat(parts.drop_last()) + parts.last()
    }
}

/// The byte sequences held by a vector of byte vectors.
pub open spec fn parts_of(v: Seq<Vec<u8>>) -> Seq<Seq<u8>> {
    Seq::new(v.len(), |i: int| v[i]@)
}

/// Joins the parts into one byte string.
pub fn join(parts: &Vec<Vec<u8>>) -> (out: Vec<u8>)
    ensures
        out@ == concat(parts_of(parts@)),
{
    let mut out: Vec<u8> = Vec::new();
    let mut i: usize = 0;
    let ghost all = parts_of(parts@);
    assert(all.take(0) =~= Seq::<Seq<u8>>::empty());
    while i < parts.len()
        invariant
            i <= parts.len(),
            all == parts_of(parts@),
            out@ == concat(all.take(i as int)),
        decreases parts.len() - i,
    {
        out.extend_from_slice(parts[i].as_slice());
        proof {
            assert(all.take(i + 1).drop_last() =~= all.take(i as int));
            assert(all.take(i + 1).last() == parts@[i as int]@);
        }
        i += 1;
    }
    assert(all.take(i as int) =~= all);
    out
}

/// SHA-256 over the concatenation of `parts`.
pub fn sha256(parts: &Vec<Vec<u8>>) -> (out: Vec<u8>)
    ensures
        out@ == sha256_of(concat(parts_of(parts@))),
        out@.len() == 32,
{
    let data = join(parts);
    sha256_digest(data.as_slice())
}

/// MD5 over the concatenation of `parts`.
pub fn md5(parts: &Vec<Vec<u8>>) -> (out: Vec<u8>)
    ensures
        out@ == md5_of(concat(parts_of(parts@))),
        out@.len() == 16,
{
    let data = join(parts);
    md5_digest(data.as_slice())
}

/// Concatenating two parts is appending the second to the first.
pub proof fn concat_two(a: Seq<u8>, b: Seq<u8>)
    ensures
        concat(seq![a, b]) == a + b,
{
    let s = seq![a, b];
    assert(s.drop_last() =~= seq![a]);
    assert(seq![a].drop_last() =~= Seq::<Seq<u8>>::empty());
    reveal_with_fuel(concat, 3);
}

/// Concatenating three parts appends them in order.
pub proof fn concat_three(a: Seq<u8>, b: Seq<u8>, c: Seq<u8>)
    ensures
        concat(seq![a, b, c]) == a + b + c,
{
    assert(seq![a, b, c].drop_last() =~= seq![a, b]);
    concat_two(a, b);
}

} // verus!
