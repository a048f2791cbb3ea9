//! The sending side of a request header: laying out a command and sealing
//! it behind a preamble. What is built here decodes to the fields it was
//! built from.

use crate::address::parse_addr_spec;
use crate::aead::encrypt;
use crate::aead::KEY_LEN;
use crate::aead::NONCE_LEN;
use crate::aead::TAG_LEN;
use crate::header::aead_decrypt_spec;
use crate::header::auth_id_of;
use crate::header::be16;
use crate::header::decode_spec;
use crate::header::header_length_spec;
use crate::header::length_plain;
use crate::header::nonce_of;
use crate::header::parse_command_spec;
use crate::header::payload_plain;
use crate::header::request_key_material;
use crate::header::sealed_length_of;
use crate::header::CommandView;
use crate::header::HandshakeError;
use crate::header::FIXED_LEN;
use crate::header::PREAMBLE_LEN;
use crate::header::VERSION;
use crate::salt::Label;
use vstd::prelude::*;

verus! {

/// Longest command that a 16-bit length field can announce.
pub const MAX_COMMAND_LEN: usize = 65535;

/// The bytes of a command: version, IV, key, options, command byte,
/// big-endian port, the address field and whatever trails it.
pub open spec fn command_bytes(
    iv: Seq<u8>,
    key: Seq<u8>,
    options: Seq<u8>,
    command: u8,
    port: u16,
    addr_field: Seq<u8>,
    trailer: Seq<u8>,
) -> Seq<u8> {
    seq![VERSION] + iv + key + options + seq![command, (port / 256) as u8, (port % 256) as u8]
        + addr_field + trailer
}

/// An address field that reads well on its own reads the same at the end
/// of a command's fixed fields, whatever trails it.
pub proof fn address_in_command(head: Seq<u8>, addr_field: Seq<u8>, trailer: Seq<u8>)
    requires
        parse_addr_spec(addr_field, 0) is Ok,
    ensures
        parse_addr_spec(head + addr_field + trailer, head.len() as int) matches Ok((text, _))
            && text == parse_addr_spec(addr_field, 0)->Ok_0.0,
{
    let all = head + addr_field + trailer;
    let p = head.len() as int;
    assert(all[p] == addr_field[0]);
    if addr_field[0] == 1 {
        assert(all.subrange(p + 1, p + 5) =~= addr_field.subrange(1, 5));
    } else if addr_field[0] == 2 {
        assert(all[p + 1] == addr_field[1]);
        let n = addr_field[1] as int;
        assert(all.subrange(p + 2, p + 2 + n) =~= addr_field.subrange(2, 2 + n));
    } else {
        assert(all.subrange(p + 1, p + 17) =~= addr_field.subrange(1, 17));
    }
}

/// The bytes of a command parse to the fields they were laid out from.
pub proof fn command_bytes_parse(
    iv: Seq<u8>,
    key: Seq<u8>,
    options: Seq<u8>,
    command: u8,
    port: u16,
    addr_field: Seq<u8>,
    trailer: Seq<u8>,
)
    requires
        iv.len() == 16,
        key.len() == 16,
        options.len() == 4,
        parse_addr_spec(addr_field, 0) is Ok,
    ensures
        parse_command_spec(command_bytes(iv, key, options, command, port, addr_field, trailer))
            == Ok::<CommandView, HandshakeError>(
            CommandView {
                version: VERSION,
                iv,
                key,
                options,
                command,
                port,
                address: parse_addr_spec(addr_field, 0)->Ok_0.0,
            },
        ),
{
    let head = seq![VERSION] + iv + key + options + seq![
        command,
        (port / 256) as u8,
        (port % 256) as u8,
    ];
    let all = command_bytes(iv, key, options, command, port, addr_field, trailer);
    assert(head.len() == FIXED_LEN);
    assert(all =~= head + addr_field + trailer);
    address_in_command(head, addr_field, trailer);
    assert(all.subrange(1, 17) =~= iv);
    assert(all.subrange(17, 33) =~= key);
    assert(all.subrange(33, 37) =~= options);
    assert(all[0] == VERSION);
    assert(all[37] == command);
    assert(all[38] == (port / 256) as u8);
    assert(all[39] == (port % 256) as u8);
    assert(be16((port / 256) as u8, (port % 256) as u8) == port);
}

fn append(out: &mut Vec<u8>, more: &[u8])
    ensures
        final(out)@ == old(out)@ + more@,
{
    out.extend_from_slice(more);
}

/// Lays out a command of the accepted version.
pub fn encode_command(
    iv: &[u8],
    key: &[u8],
    options: &[u8],
    command: u8,
    port: u16,
    addr_field: &[u8],
    trailer: &[u8],
) -> (out: Vec<u8>)
    requires
        iv@.len() == 16,
        key@.len() == 16,
        options@.len() == 4,
    ensures
        out@ == command_bytes(iv@, key@, options@, command, port, addr_field@, trailer@),
        parse_addr_spec(addr_field@, 0) is Ok ==> parse_command_spec(out@) == Ok::<
            CommandView,
            HandshakeError,
        >(
            CommandView {
                version: VERSION,
                iv: iv@,
                key: key@,
                options: options@,
                command,
                port,
                address: parse_addr_spec(addr_field@, 0)->Ok_0.0,
            },
        ),
{
    let mut out: Vec<u8> = Vec::new();
    out.push(VERSION);
    append(&mut out, iv);
    append(&mut out, key);
    append(&mut out, options);
    out.push(command);
    out.push((port / 256) as u8);
    out.push((port % 256) as u8);
    append(&mut out, addr_field);
    append(&mut out, trailer);
    proof {
        assert(out@ =~= command_bytes(iv@, key@, options@, command, port, addr_field@, trailer@));
        if parse_addr_spec(addr_field@, 0) is Ok {
            command_bytes_parse(iv@, key@, options@, command, port, addr_field@, trailer@);
        }
    }
    out
}

/// Seals command bytes into a request: the preamble of authentication id,
/// sealed length and nonce, then the sealed command. Succeeds exactly on
/// commands that a 16-bit length can announce, and the request then opens
/// to the command bytes again.
pub fn seal_request(uuid: &[u8], auth_id: &[u8], nonce: &[u8], command: &[u8]) -> (r: Option<
    Vec<u8>,
>)
    requires
        auth_id@.len() == 16,
        nonce@.len() == 8,
    ensures
        r is Some <==> command@.len() <= MAX_COMMAND_LEN,
        r matches Some(frame) ==> {
            &&& frame@.len() == PREAMBLE_LEN + command@.len() + TAG_LEN
            &&& auth_id_of(frame@.take(PREAMBLE_LEN as int)) == auth_id@
            &&& nonce_of(frame@.take(PREAMBLE_LEN as int)) == nonce@
            &&& header_length_spec(uuid@, frame@.take(PREAMBLE_LEN as int)) == Ok::<
                u16,
                HandshakeError,
            >(command@.len() as u16)
            &&& aead_decrypt_spec(
                uuid@,
                frame@.take(PREAMBLE_LEN as int),
                frame@.skip(PREAMBLE_LEN as int),
            ) == Ok::<Seq<u8>, HandshakeError>(command@)
        },
{
    if command.len() > MAX_COMMAND_LEN {
        return None;
    }
    let n: usize = command.len();
    let mut len_plain: Vec<u8> = Vec::new();
    len_plain.push((n / 256) as u8);
    len_plain.push((n % 256) as u8);
    let len_key = request_key_material(uuid, Label::RequestLengthKey, auth_id, nonce, KEY_LEN);
    let len_iv = request_key_material(uuid, Label::RequestLengthIv, auth_id, nonce, NONCE_LEN);
    let sealed_len = match encrypt(
        len_key.as_slice(),
        len_iv.as_slice(),
        auth_id,
        len_plain.as_slice(),
    ) {
        Ok(v) => v,
        Err(_) => {
            return None;
        },
    };
    let key = request_key_material(uuid, Label::RequestPayloadKey, auth_id, nonce, KEY_LEN);
    let iv = request_key_material(uuid, Label::RequestPayloadIv, auth_id, nonce, NONCE_LEN);
    let sealed_cmd = match encrypt(key.as_slice(), iv.as_slice(), auth_id, command) {
        Ok(v) => v,
        Err(_) => {
            return None;
        },
    };
    let mut frame: Vec<u8> = Vec::new();
    append(&mut frame, auth_id);
    append(&mut frame, sealed_len.as_slice());
    append(&mut frame, nonce);
    append(&mut frame, sealed_cmd.as_slice());
    proof {
        let pre = frame@.take(PREAMBLE_LEN as int);
        let body = frame@.skip(PREAMBLE_LEN as int);
        assert(auth_id_of(pre) =~= auth_id@);
        assert(sealed_length_of(pre) =~= sealed_len@);
        assert(nonce_of(pre) =~= nonce@);
        assert(body =~= sealed_cmd@);
        assert(length_plain(uuid@, pre) == Some(len_plain@));
        assert(be16(len_plain@[0], len_plain@[1]) == n as u16);
        assert(body.take(n + TAG_LEN) =~= body);
        assert(payload_plain(uuid@, pre, body) == Some(command@));
    }
    Some(frame)
}

/// Builds the request that carries the given command fields. Where the
/// address field reads well and the command fits, decoding the request
/// gives exactly these fields back.
pub fn encode_request(
    uuid: &[u8],
    auth_id: &[u8],
    nonce: &[u8],
    iv: &[u8],
    key: &[u8],
    options: &[u8],
    command: u8,
    port: u16,
    addr_field: &[u8],
    trailer: &[u8],
) -> (r: Option<Vec<u8>>)
    requires
        auth_id@.len() == 16,
        nonce@.len() == 8,
        iv@.len() == 16,
        key@.len() == 16,
        options@.len() == 4,
    ensures
        r is Some <==> FIXED_LEN + addr_field@.len() + trailer@.len() <= MAX_COMMAND_LEN,
        r matches Some(frame) ==> aead_decrypt_spec(
            uuid@,
            frame@.take(PREAMBLE_LEN as int),
            frame@.skip(PREAMBLE_LEN as int),
        ) == Ok::<Seq<u8>, HandshakeError>(
            command_bytes(iv@, key@, options@, command, port, addr_field@, trailer@),
        ),
        r matches Some(frame) ==> (parse_addr_spec(addr_field@, 0) is Ok ==> decode_spec(
            uuid@,
            frame@.take(PREAMBLE_LEN as int),
            frame@.skip(PREAMBLE_LEN as int),
        ) == Ok::<CommandView, HandshakeError>(
            CommandView {
                version: VERSION,
                iv: iv@,
                key: key@,
                options: options@,
                command,
                port,
                address: parse_addr_spec(addr_field@, 0)->Ok_0.0,
            },
        )),
{
    let bytes = encode_command(iv, key, options, command, port, addr_field, trailer);
    seal_request(uuid, auth_id, nonce, bytes.as_slice())
}

} // verus!
