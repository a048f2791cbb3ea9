//! The salt labels that separate the purposes of derived key material. Each
//! label serves exactly one purpose, and no two labels are equal.

use vstd::prelude::*;

verus! {

/// The purpose of a piece of derived key material.
#[derive(Clone, Copy, Debug, PartialEq, Eq, Structural)]
pub enum Label {
    /// Key that seals the length field of a request header.
    RequestLengthKey,
    /// Nonce that seals the length field of a request header.
    RequestLengthIv,
    /// Key that seals the payload of a request header.
    RequestPayloadKey,
    /// Nonce that seals the payload of a request header.
    RequestPayloadIv,
    /// Key that seals the length field of a response header.
    ResponseLengthKey,
    /// Nonce that seals the length field of a response header.
    ResponseLengthIv,
    /// Key that seals the payload of a response header.
    ResponsePayloadKey,
    /// Nonce that seals the payload of a response header.
    ResponsePayloadIv,
}

/// The bytes of a label.
pub open spec fn label_bytes(label: Label) -> Seq<u8> {
    match label {
        // "VMess Header AEAD Key_Length"
        Label::RequestLengthKey => seq![
            86u8, 77u8, 101u8, 115u8, 115u8, 32u8, 72u8, 101u8, 97u8, 100u8, 101u8,
            114u8, 32u8, 65u8, 69u8, 65u8, 68u8, 32u8, 75u8, 101u8, 121u8, 95u8, 76u8,
            101u8, 110u8, 103u8, 116u8, 104u8,
        ],
        // "VMess Header AEAD Nonce_Length"
        Label::RequestLengthIv => seq![
            86u8, 77u8, 101u8, 115u8, 115u8, 32u8, 72u8, 101u8, 97u8, 100u8, 101u8,
            114u8, 32u8, 65u8, 69u8, 65u8, 68u8, 32u8, 78u8, 111u8, 110u8, 99u8, 101u8,
            95u8, 76u8, 101u8, 110u8, 103u8, 116u8, 104u8,
        ],
        // "VMess Header AEAD Key"
        Label::RequestPayloadKey => seq![
            86u8, 77u8, 101u8, 115u8, 115u8, 32u8, 72u8, 101u8, 97u8, 100u8, 101u8,
            114u8, 32u8, 65u8, 69u8, 65u8, 68u8, 32u8, 75u8, 101u8, 121u8,
        ],
        // "VMess Header AEAD Nonce"
        Label::RequestPayloadIv => seq![
            86u8, 77u8, 101u8, 115u8, 115u8, 32u8, 72u8, 101u8, 97u8, 100u8, 101u8,
            114u8, 32u8, 65u8, 69u8, 65u8, 68u8, 32u8, 78u8, 111u8, 110u8, 99u8, 101u8,
        ],
        // "AEAD Resp Header Len Key"
        Label::ResponseLengthKey => seq![
            65u8, 69u8, 65u8, 68u8, 32u8, 82u8, 101u8, 115u8, 112u8, 32u8, 72u8, 101u8,
            97u8, 100u8, 101u8, 114u8, 32u8, 76u8, 101u8, 110u8, 32u8, 75u8, 101u8,
            121u8,
        ],
        // "AEAD Resp Header Len IV"
        Label::ResponseLengthIv => seq![
            65u8, 69u8, 65u8, 68u8, 32u8, 82u8, 101u8, 115u8, 112u8, 32u8, 72u8, 101u8,
            97u8, 100u8, 101u8, 114u8, 32u8, 76u8, 101u8, 110u8, 32u8, 73u8, 86u8,
        ],
        // "AEAD Resp Header Key"
        Label::ResponsePayloadKey => seq![
            65u8, 69u8, 65u8, 68u8, 32u8, 82u8, 101u8, 115u8, 112u8, 32u8, 72u8, 101u8,
            97u8, 100u8, 101u8, 114u8, 32u8, 75u8, 101u8, 121u8,
        ],
        // "AEAD Resp Header IV"
        Label::ResponsePayloadIv => seq![
            65u8, 69u8, 65u8, 68u8, 32u8, 82u8, 101u8, 115u8, 112u8, 32u8, 72u8, 101u8,
            97u8, 100u8, 101u8, 114u8, 32u8, 73u8, 86u8,
        ],
    }
}

/// The bytes of a label, as a vector.
pub fn label_vec(label: Label) -> (out: Vec<u8>)
    ensures
        out@ == label_bytes(label),
{
    let out: Vec<u8> = match label {
        Label::RequestLengthKey => vec![
            86u8, 77u8, 101u8, 115u8, 115u8, 32u8, 72u8, 101u8, 97u8, 100u8, 101u8,
            114u8, 32u8, 65u8, 69u8, 65u8, 68u8, 32u8, 75u8, 101u8, 121u8, 95u8, 76u8,
            101u8, 110u8, 103u8, 116u8, 104u8,
        ],
        Label::RequestLengthIv => vec![
            86u8, 77u8, 101u8, 115u8, 115u8, 32u8, 72u8, 101u8, 97u8, 100u8, 101u8,
            114u8, 32u8, 65u8, 69u8, 65u8, 68u8, 32u8, 78u8, 111u8, 110u8, 99u8, 101u8,
            95u8, 76u8, 101u8, 110u8, 103u8, 116u8, 104u8,
        ],
        Label::RequestPayloadKey => vec![
            86u8, 77u8, 101u8, 115u8, 115u8, 32u8, 72u8, 101u8, 97u8, 100u8, 101u8,
            114u8, 32u8, 65u8, 69u8, 65u8, 68u8, 32u8, 75u8, 101u8, 121u8,
        ],
        Label::RequestPayloadIv => vec![
            86u8, 77u8, 101u8, 115u8, 115u8, 32u8, 72u8, 101u8, 97u8, 100u8, 101u8,
            114u8, 32u8, 65u8, 69u8, 65u8, 68u8, 32u8, 78u8, 111u8, 110u8, 99u8, 101u8,
        ],
        Label::ResponseLengthKey => vec![
            65u8, 69u8, 65u8, 68u8, 32u8, 82u8, 101u8, 115u8, 112u8, 32u8, 72u8, 101u8,
            97u8, 100u8, 101u8, 114u8, 32u8, 76u8, 101u8, 110u8, 32u8, 75u8, 101u8,
            121u8,
        ],
        Label::ResponseLengthIv => vec![
            65u8, 69u8, 65u8, 68u8, 32u8, 82u8, 101u8, 115u8, 112u8, 32u8, 72u8, 101u8,
            97u8, 100u8, 101u8, 114u8, 32u8, 76u8, 101u8, 110u8, 32u8, 73u8, 86u8,
        ],
        Label::ResponsePayloadKey => vec![
            65u8, 69u8, 65u8, 68u8, 32u8, 82u8, 101u8, 115u8, 112u8, 32u8, 72u8, 101u8,
            97u8, 100u8, 101u8, 114u8, 32u8, 75u8, 101u8, 121u8,
        ],
        Label::ResponsePayloadIv => vec![
            65u8, 69u8, 65u8, 68u8, 32u8, 82u8, 101u8, 115u8, 112u8, 32u8, 72u8, 101u8,
            97u8, 100u8, 101u8, 114u8, 32u8, 73u8, 86u8,
        ],
    };
    assert(out@ =~= label_bytes(label));
    out
}

/// The fixed text that is hashed with the identity secret into the
/// authentication key.
pub open spec fn auth_constant() -> Seq<u8> {
    // "c48619fe-8f02-49e0-b9e9-edf763e17e21"
    seq![
        99u8, 52u8, 56u8, 54u8, 49u8, 57u8, 102u8, 101u8, 45u8, 56u8, 102u8, 48u8, 50u8,
        45u8, 52u8, 57u8, 101u8, 48u8, 45u8, 98u8, 57u8, 101u8, 57u8, 45u8, 101u8,
        100u8, 102u8, 55u8, 54u8, 51u8, 101u8, 49u8, 55u8, 101u8, 50u8, 49u8,
    ]
}

/// The fixed text of the authentication key, as a vector.
pub fn auth_constant_vec() -> (out: Vec<u8>)
    ensures
        out@ == auth_constant(),
{
    let out: Vec<u8> = vec![
        99u8, 52u8, 56u8, 54u8, 49u8, 57u8, 102u8, 101u8, 45u8, 56u8, 102u8, 48u8, 50u8,
        45u8, 52u8, 57u8, 101u8, 48u8, 45u8, 98u8, 57u8, 101u8, 57u8, 45u8, 101u8,
        100u8, 102u8, 55u8, 54u8, 51u8, 101u8, 49u8, 55u8, 101u8, 50u8, 49u8,
    ];
    assert(out@ =~= auth_constant());
    out
}

/// Two different labels differ in their length or in their first byte.
pub proof fn labels_differ_early(a: Label, b: Label)
    requires
        a != b,
    ensures
        label_bytes(a).len() > 0,
        label_bytes(b).len() > 0,
        label_bytes(a).len() != label_bytes(b).len() || label_bytes(a)[0] != label_bytes(b)[0],
{
    assert(label_bytes(Label::RequestLengthKey).len() == 28);
    assert(label_bytes(Label::RequestLengthIv).len() == 30);
    assert(label_bytes(Label::RequestPayloadKey).len() == 21);
    assert(label_bytes(Label::RequestPayloadIv).len() == 23);
    assert(label_bytes(Label::ResponseLengthKey).len() == 24);
    assert(label_bytes(Label::ResponseLengthIv).len() == 23);
    assert(label_bytes(Label::ResponsePayloadKey).len() == 20);
    assert(label_bytes(Label::ResponsePayloadIv).len() == 19);
    assert(label_bytes(Label::RequestPayloadIv)[0] == 86u8);
    assert(label_bytes(Label::ResponseLengthIv)[0] == 65u8);
}

/// Two different purposes never share a label.
pub proof fn labels_distinct(a: Label, b: Label)
    requires
        a != b,
    ensures
        label_bytes(a) != label_bytes(b),
{
    labels_differ_early(a, b);
}

} // verus!
