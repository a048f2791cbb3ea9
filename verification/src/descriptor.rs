//! What the boundary around the protocol decides of a request: whether it
//! opens a tunnel, and the text of the descriptor link.

use crate::address::digit;
use crate::config::Config;
use base64::engine::general_purpose::URL_SAFE;
use base64::Engine;
use vstd::prelude::*;
use vstd::string::StringExecFns;

verus! {

/// A character, with an ASCII capital letter turned into its small one.
pub open spec fn ascii_lower_char(c: char) -> char {
    if 0x41 <= c as u32 && c as u32 <= 0x5a {
        (c as u32 + 32) as char
    } else {
        c
    }
}

/// A text with its ASCII letters in lower case.
pub open spec fn ascii_lowered(s: Seq<char>) -> Seq<char> {
    Seq::new(s.len(), |i: int| ascii_lower_char(s[i]))
}

/// A text as a JSON string: quoted and escaped, as `serde_json` writes it.
pub uninterp spec fn json_text(s: Seq<char>) -> Seq<char>;

/// The URL-safe base64 text, with padding, of the UTF-8 bytes of a text.
pub uninterp spec fn base64_url_text(s: Seq<char>) -> Seq<char>;

/// A byte as two lower-case hexadecimal digits.
pub open spec fn hex2(b: u8) -> Seq<char> {
    seq![digit(b as int / 16), digit(b as int % 16)]
}

/// The bytes `from..to` in hexadecimal.
pub open spec fn hex_run(b: Seq<u8>, from: int, to: int) -> Seq<char>
    decreases to - from,
{
    if from >= to {
        Seq::empty()
    } else {
        hex_run(b, from, to - 1) + hex2(b[to - 1])
    }
}

/// Sixteen bytes as the text of a UUID: lower-case hexadecimal in groups
/// of 8, 4, 4, 4 and 12 digits, separated by hyphens.
pub open spec fn hyphenated(b: Seq<u8>) -> Seq<char> {
    hex_run(b, 0, 4) + seq!['-'] + hex_run(b, 4, 6) + seq!['-'] + hex_run(b, 6, 8) + seq!['-']
        + hex_run(b, 8, 10) + seq!['-'] + hex_run(b, 10, 16)
}

/// Calls `str::to_ascii_lowercase` of std. Trusted: every ASCII capital
/// letter is turned into its small one, and nothing else changes.
#[verifier::external_body]
pub(crate) fn to_ascii_lower(s: &str) -> (r: String)
    ensures
        r@ == ascii_lowered(s@),
{
    s.to_ascii_lowercase()
}

/// Calls the `Display` of `serde_json::Value` on a JSON string. Trusted:
/// the result is a function of the text alone.
#[verifier::external_body]
pub(crate) fn json_string(s: &str) -> (r: String)
    ensures
        r@ == json_text(s@),
{
    serde_json::Value::String(s.to_owned()).to_string()
}

/// Calls `Engine::encode` of the `base64` crate on its URL-safe engine.
/// Trusted: the result is a function of the text alone.
#[verifier::external_body]
pub(crate) fn base64_url(s: &str) -> (r: String)
    ensures
        r@ == base64_url_text(s@),
{
    URL_SAFE.encode(s)
}

/// Calls the `Display` of `uuid::Uuid`. Trusted: the result is the
/// hyphenated lower-case hexadecimal text of the sixteen bytes.
#[verifier::external_body]
pub(crate) fn uuid_text(bytes: &[u8; 16]) -> (r: String)
    ensures
        r@ == hyphenated(bytes@),
{
    uuid::Uuid::from_bytes(*bytes).to_string()
}

/// Whether a text in lower case names the WebSocket protocol.
pub fn names_websocket(word: &String) -> (r: bool)
    ensures
        r == (word@ == "websocket"@),
{
    *word == String::from_str("websocket")
}

/// Whether a request asks for the tunnel: its upgrade header, whatever the
/// case of its ASCII letters, names the WebSocket protocol. Every other
/// request is redirected.
pub fn is_websocket_upgrade(upgrade: &Option<String>) -> (r: bool)
    ensures
        r == match *upgrade {
            Some(v) => ascii_lowered(v@) == "websocket"@,
            None => false,
        },
{
    match upgrade {
        Some(v) => {
            let word = to_ascii_lower(v.as_str());
            names_websocket(&word)
        },
        None => false,
    }
}

/// The connection descriptor as JSON text, for a host and an identity
/// that are already written as JSON strings.
pub open spec fn descriptor_spec(host: Seq<char>, id: Seq<char>) -> Seq<char> {
    "{\"add\":\"162.159.16.149\",\"aid\":\"0\",\"alpn\":\"\",\"host\":"@ + host + ",\"id\":"@ + id
        + ",\"net\":\"ws\",\"path\":\"\",\"port\":\"80\",\"ps\":\"tunl\",\"scy\":\"zero\",\"sni\":\"\",\"tls\":\"\",\"type\":\"none\",\"v\":\"2\"}"@
}

/// The link of a configuration: the scheme, then the base64 text of the
/// descriptor that carries the host and the identity.
pub open spec fn link_spec(host: Seq<char>, uuid: Seq<u8>) -> Seq<char> {
    "vmess://"@ + base64_url_text(descriptor_spec(json_text(host), json_text(hyphenated(uuid))))
}

/// Puts the descriptor together from a host and an identity that are
/// already written as JSON strings. The keys stand in alphabetical order.
pub fn descriptor(host: &String, id: &String) -> (r: String)
    ensures
        r@ == descriptor_spec(host@, id@),
{
    let mut out = String::from_str(
        "{\"add\":\"162.159.16.149\",\"aid\":\"0\",\"alpn\":\"\",\"host\":",
    );
    out.append(host.as_str());
    out.append(",\"id\":");
    out.append(id.as_str());
    out.append(
        ",\"net\":\"ws\",\"path\":\"\",\"port\":\"80\",\"ps\":\"tunl\",\"scy\":\"zero\",\"sni\":\"\",\"tls\":\"\",\"type\":\"none\",\"v\":\"2\"}",
    );
    out
}

/// Puts the link together from the base64 text of a descriptor.
pub fn link_text(encoded: &String) -> (r: String)
    ensures
        r@ == "vmess://"@ + encoded@,
{
    let mut out = String::from_str("vmess://");
    out.append(encoded.as_str());
    out
}

/// The descriptor link of a configuration, where it may be shown; a
/// configuration that does not show it gives none, and the request is
/// redirected.
pub fn link(config: &Config) -> (r: Option<String>)
    ensures
        r is Some <==> config.display_link,
        r matches Some(text) ==> text@ == link_spec(config.host@, config.uuid@),
{
    if !config.display_link {
        return None;
    }
    let host = json_string(config.host.as_str());
    let id_text = uuid_text(&config.uuid);
    let id = json_string(id_text.as_str());
    let json = descriptor(&host, &id);
    let encoded = base64_url(json.as_str());
    Some(link_text(&encoded))
}

} // verus!
