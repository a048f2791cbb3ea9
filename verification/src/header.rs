//! The request header: a fixed preamble (authentication id, sealed length,
//! nonce) followed by the sealed command, and the command's own layout.

use crate::address::parse_addr;
use crate::address::parse_addr_spec;
use crate::aead::decrypt;
use crate::aead::opened;
use crate::aead::KEY_LEN;
use crate::aead::NONCE_LEN;
use crate::aead::TAG_LEN;
use crate::digest::concat;
use crate::digest::concat_three;
use crate::digest::md5;
use crate::digest::md5_of;
use crate::digest::parts_of;
use crate::kdf::derive_spec;
use crate::kdf::prefix;
use crate::salt::auth_constant;
use crate::salt::auth_constant_vec;
use crate::salt::label_bytes;
use crate::salt::label_vec;
use crate::salt::Label;
use vstd::prelude::*;
use vstd::slice::slice_subrange;
use vstd::slice::slice_to_vec;

verus! {

/// Length of the authentication id that opens a request.
pub const AUTH_ID_LEN: usize = 16;

/// Length of the sealed length field: two bytes and the tag.
pub const SEALED_LENGTH_LEN: usize = 18;

/// Length of the connection nonce that closes the preamble.
pub const CONNECTION_NONCE_LEN: usize = 8;

/// Length of the whole preamble.
pub const PREAMBLE_LEN: usize = 42;

/// Length of a command's fields in front of its address.
pub const FIXED_LEN: usize = 40;

/// The only protocol version that is accepted.
pub const VERSION: u8 = 1;

/// The command byte that asks for a TCP relay.
pub const COMMAND_TCP: u8 = 0x01;

/// Why a request header was rejected.
#[derive(Clone, Copy, Debug, PartialEq, Eq, Structural)]
pub enum HandshakeError {
    /// A tag did not verify, or the version is not the accepted one.
    Authentication,
    /// The stream gave fewer bytes than the header needs.
    Stream,
    /// The command is cut short or its address cannot be read.
    Decode,
}

/// The decoded command of a request.
#[derive(Debug)]
pub struct Command {
    pub version: u8,
    pub iv: Vec<u8>,
    pub key: Vec<u8>,
    pub options: Vec<u8>,
    pub command: u8,
    pub port: u16,
    pub address: String,
}

/// A command as plain values.
pub struct CommandView {
    pub version: u8,
    pub iv: Seq<u8>,
    pub key: Seq<u8>,
    pub options: Seq<u8>,
    pub command: u8,
    pub port: u16,
    pub address: Seq<char>,
}

impl View for Command {
    type V = CommandView;

    open spec fn view(&self) -> CommandView {
        CommandView {
            version: self.version,
            iv: self.iv@,
            key: self.key@,
            options: self.options@,
            command: self.command,
            port: self.port,
            address: self.address@,
        }
    }
}

impl Command {
    /// A command holds a 16-byte IV, a 16-byte key and four option bytes,
    /// and is of the accepted version.
    pub open spec fn wf(&self) -> bool {
        self.version == VERSION && self.iv@.len() == 16 && self.key@.len() == 16
            && self.options@.len() == 4
    }

    /// Whether the command asks for a TCP relay.
    pub fn is_tcp(&self) -> (r: bool)
        ensures
            r == (self.command == COMMAND_TCP),
    {
        self.command == COMMAND_TCP
    }
}

/// The 16-bit value of two bytes, big-endian.
pub open spec fn be16(hi: u8, lo: u8) -> u16 {
    (hi as int * 256 + lo as int) as u16
}

/// The authentication key of an identity secret.
pub open spec fn auth_key_spec(uuid: Seq<u8>) -> Seq<u8> {
    md5_of(uuid + auth_constant())
}

/// The salts of a request derivation: label, authentication id, nonce.
pub open spec fn request_salts(label: Label, auth_id: Seq<u8>, nonce: Seq<u8>) -> Seq<Seq<u8>> {
    seq![label_bytes(label), auth_id, nonce]
}

/// The first `n` bytes derived for a purpose of the request header.
pub open spec fn request_material(
    uuid: Seq<u8>,
    label: Label,
    auth_id: Seq<u8>,
    nonce: Seq<u8>,
    n: int,
) -> Seq<u8> {
    derive_spec(auth_key_spec(uuid), request_salts(label, auth_id, nonce)).take(n)
}

/// The authentication id of a preamble.
pub open spec fn auth_id_of(preamble: Seq<u8>) -> Seq<u8> {
    preamble.subrange(0, 16)
}

/// The sealed length field of a preamble.
pub open spec fn sealed_length_of(preamble: Seq<u8>) -> Seq<u8> {
    preamble.subrange(16, 34)
}

/// The connection nonce of a preamble.
pub open spec fn nonce_of(preamble: Seq<u8>) -> Seq<u8> {
    preamble.subrange(34, 42)
}

/// What the sealed length field of a preamble opens to.
pub open spec fn length_plain(uuid: Seq<u8>, preamble: Seq<u8>) -> Option<Seq<u8>> {
    let a = auth_id_of(preamble);
    let n = nonce_of(preamble);
    opened(
        request_material(uuid, Label::RequestLengthKey, a, n, 16),
        request_material(uuid, Label::RequestLengthIv, a, n, 12),
        a,
        sealed_length_of(preamble),
    )
}

/// The header length that a preamble announces: a stream error where the
/// preamble is short, an authentication failure where the length field does
/// not open.
pub open spec fn header_length_spec(uuid: Seq<u8>, preamble: Seq<u8>) -> Result<
    u16,
    HandshakeError,
> {
    if preamble.len() < PREAMBLE_LEN {
        Err(HandshakeError::Stream)
    } else {
        match length_plain(uuid, preamble) {
            None => Err(HandshakeError::Authentication),
            Some(p) => Ok(be16(p[0], p[1])),
        }
    }
}

/// What the sealed command behind a preamble opens to.
pub open spec fn payload_plain(uuid: Seq<u8>, preamble: Seq<u8>, sealed: Seq<u8>) -> Option<
    Seq<u8>,
> {
    let a = auth_id_of(preamble);
    let n = nonce_of(preamble);
    opened(
        request_material(uuid, Label::RequestPayloadKey, a, n, 16),
        request_material(uuid, Label::RequestPayloadIv, a, n, 12),
        a,
        sealed,
    )
}

/// The command bytes of a request: the announced length and the tag are
/// taken from the body, which must hold that many bytes, and opened.
pub open spec fn aead_decrypt_spec(uuid: Seq<u8>, preamble: Seq<u8>, body: Seq<u8>) -> Result<
    Seq<u8>,
    HandshakeError,
> {
    match header_length_spec(uuid, preamble) {
        Err(e) => Err(e),
        Ok(len) => if body.len() < len + TAG_LEN {
            Err(HandshakeError::Stream)
        } else {
            match payload_plain(uuid, preamble, body.take(len + TAG_LEN)) {
                None => Err(HandshakeError::Authentication),
                Some(p) => Ok(p),
            }
        },
    }
}

/// The command that command bytes hold: version, IV, key, options, command
/// byte, big-endian port and tagged address; what follows is ignored.
pub open spec fn parse_command_spec(bytes: Seq<u8>) -> Result<CommandView, HandshakeError> {
    if bytes.len() < 1 {
        Err(HandshakeError::Decode)
    } else if bytes[0] != VERSION {
        Err(HandshakeError::Authentication)
    } else if bytes.len() < FIXED_LEN {
        Err(HandshakeError::Decode)
    } else {
        match parse_addr_spec(bytes, FIXED_LEN as int) {
            Err(_) => Err(HandshakeError::Decode),
            Ok((text, _)) => Ok(
                CommandView {
                    version: VERSION,
                    iv: bytes.subrange(1, 17),
                    key: bytes.subrange(17, 33),
                    options: bytes.subrange(33, 37),
                    command: bytes[37],
                    port: be16(bytes[38], bytes[39]),
                    address: text,
                },
            ),
        }
    }
}

/// The command that a request holds.
pub open spec fn decode_spec(uuid: Seq<u8>, preamble: Seq<u8>, body: Seq<u8>) -> Result<
    CommandView,
    HandshakeError,
> {
    match aead_decrypt_spec(uuid, preamble, body) {
        Err(e) => Err(e),
        Ok(p) => parse_command_spec(p),
    }
}

/// Two different purposes of the request header never hash the same
/// message: under one authentication id and nonce, their salts concatenate
/// to different byte strings.
pub proof fn purposes_are_separated(a: Label, b: Label, auth_id: Seq<u8>, nonce: Seq<u8>)
    requires
        a != b,
    ensures
        concat(request_salts(a, auth_id, nonce)) != concat(request_salts(b, auth_id, nonce)),
{
    crate::salt::labels_differ_early(a, b);
    concat_three(label_bytes(a), auth_id, nonce);
    concat_three(label_bytes(b), auth_id, nonce);
    let ma = label_bytes(a) + auth_id + nonce;
    let mb = label_bytes(b) + auth_id + nonce;
    if label_bytes(a).len() == label_bytes(b).len() {
        assert(ma[0] == label_bytes(a)[0]);
        assert(mb[0] == label_bytes(b)[0]);
    } else {
        assert(ma.len() != mb.len());
    }
}

/// A request of which the length field or the sealed command does not
/// open is rejected as an authentication failure, whatever else it holds.
pub proof fn unopened_is_rejected(uuid: Seq<u8>, preamble: Seq<u8>, body: Seq<u8>)
    requires
        preamble.len() >= PREAMBLE_LEN,
        length_plain(uuid, preamble) is None || (header_length_spec(uuid, preamble) matches Ok(n)
            && body.len() >= n + TAG_LEN && payload_plain(
            uuid,
            preamble,
            body.take(n + TAG_LEN),
        ) is None),
    ensures
        decode_spec(uuid, preamble, body) == Err::<CommandView, HandshakeError>(
            HandshakeError::Authentication,
        ),
{
}

/// The view of a result over bytes.
pub open spec fn bytes_view(r: Result<Vec<u8>, HandshakeError>) -> Result<Seq<u8>, HandshakeError> {
    match r {
        Ok(v) => Ok(v@),
        Err(e) => Err(e),
    }
}

/// The view of a result over a command.
pub open spec fn command_view(r: Result<Command, HandshakeError>) -> Result<
    CommandView,
    HandshakeError,
> {
    match r {
        Ok(c) => Ok(c@),
        Err(e) => Err(e),
    }
}

/// The authentication key: MD5 over the identity secret and a fixed text.
pub fn auth_key(uuid: &[u8]) -> (out: Vec<u8>)
    ensures
        out@ == auth_key_spec(uuid@),
        out@.len() == 16,
{
    let mut parts: Vec<Vec<u8>> = Vec::new();
    parts.push(slice_to_vec(uuid));
    parts.push(auth_constant_vec());
    proof {
        assert(parts_of(parts@) =~= seq![uuid@, auth_constant()]);
        crate::digest::concat_two(uuid@, auth_constant());
    }
    md5(&parts)
}

/// Derives the first `n` bytes for one purpose of the request header.
pub fn request_key_material(
    uuid: &[u8],
    label: Label,
    auth_id: &[u8],
    nonce: &[u8],
    n: usize,
) -> (out: Vec<u8>)
    requires
        n <= 32,
    ensures
        out@ == request_material(uuid@, label, auth_id@, nonce@, n as int),
        out@.len() == n,
{
    let secret = auth_key(uuid);
    let mut salts: Vec<Vec<u8>> = Vec::new();
    salts.push(label_vec(label));
    salts.push(slice_to_vec(auth_id));
    salts.push(slice_to_vec(nonce));
    assert(parts_of(salts@) =~= request_salts(label, auth_id@, nonce@));
    let digest = crate::kdf::derive(secret.as_slice(), &salts);
    prefix(&digest, n)
}

/// Opens the length field of a preamble and gives the announced header
/// length.
pub fn header_length(uuid: &[u8], preamble: &[u8]) -> (r: Result<u16, HandshakeError>)
    ensures
        r == header_length_spec(uuid@, preamble@),
{
    if preamble.len() < PREAMBLE_LEN {
        return Err(HandshakeError::Stream);
    }
    let auth_id = slice_subrange(preamble, 0, 16);
    let sealed = slice_subrange(preamble, 16, 34);
    let nonce = slice_subrange(preamble, 34, 42);
    let key = request_key_material(uuid, Label::RequestLengthKey, auth_id, nonce, KEY_LEN);
    let iv = request_key_material(uuid, Label::RequestLengthIv, auth_id, nonce, NONCE_LEN);
    match decrypt(key.as_slice(), iv.as_slice(), auth_id, sealed) {
        Err(_) => Err(HandshakeError::Authentication),
        Ok(plain) => {
            let hi: u16 = plain[0] as u16;
            let lo: u16 = plain[1] as u16;
            Ok(hi * 256 + lo)
        },
    }
}

/// Opens a request: the length field of the preamble first, then as many
/// bytes of the body as it announces, with the tag. Gives the command bytes.
pub fn aead_decrypt(uuid: &[u8], preamble: &[u8], body: &[u8]) -> (r: Result<
    Vec<u8>,
    HandshakeError,
>)
    ensures
        bytes_view(r) == aead_decrypt_spec(uuid@, preamble@, body@),
{
    let len: usize = match header_length(uuid, preamble) {
        Err(e) => {
            return Err(e);
        },
        Ok(len) => len as usize,
    };
    if body.len() < len + TAG_LEN {
        return Err(HandshakeError::Stream);
    }
    let auth_id = slice_subrange(preamble, 0, 16);
    let nonce = slice_subrange(preamble, 34, 42);
    let sealed = slice_subrange(body, 0, len + TAG_LEN);
    assert(sealed@ =~= body@.take(len + TAG_LEN));
    let key = request_key_material(uuid, Label::RequestPayloadKey, auth_id, nonce, KEY_LEN);
    let iv = request_key_material(uuid, Label::RequestPayloadIv, auth_id, nonce, NONCE_LEN);
    match decrypt(key.as_slice(), iv.as_slice(), auth_id, sealed) {
        Err(_) => Err(HandshakeError::Authentication),
        Ok(plain) => Ok(plain),
    }
}

/// Reads a command from command bytes. A version other than the accepted
/// one is an authentication failure; bytes that end early, or an address
/// that cannot be read, are a decode error.
pub fn parse_command(bytes: &[u8]) -> (r: Result<Command, HandshakeError>)
    ensures
        command_view(r) == parse_command_spec(bytes@),
        r matches Ok(c) ==> c.wf(),
{
    if bytes.len() < 1 {
        return Err(HandshakeError::Decode);
    }
    if bytes[0] != VERSION {
        return Err(HandshakeError::Authentication);
    }
    if bytes.len() < FIXED_LEN {
        return Err(HandshakeError::Decode);
    }
    let hi: u16 = bytes[38] as u16;
    let lo: u16 = bytes[39] as u16;
    match parse_addr(bytes, FIXED_LEN) {
        Err(_) => Err(HandshakeError::Decode),
        Ok((address, _)) => Ok(
            Command {
                version: VERSION,
                iv: slice_to_vec(slice_subrange(bytes, 1, 17)),
                key: slice_to_vec(slice_subrange(bytes, 17, 33)),
                options: slice_to_vec(slice_subrange(bytes, 33, 37)),
                command: bytes[37],
                port: hi * 256 + lo,
                address,
            },
        ),
    }
}

/// Decodes a request into its command.
pub fn decode(uuid: &[u8], preamble: &[u8], body: &[u8]) -> (r: Result<Command, HandshakeError>)
    ensures
        command_view(r) == decode_spec(uuid@, preamble@, body@),
        r matches Ok(c) ==> c.wf(),
{
    match aead_decrypt(uuid, preamble, body) {
        Err(e) => Err(e),
        Ok(plain) => parse_command(plain.as_slice()),
    }
}

} // verus!
