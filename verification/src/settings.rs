//! Reading the configured values: the list of fallback destinations, the
//! flag that shows the descriptor link, and the redirect address.

use crate::address::utf8_string;
use crate::relay::texts;
use vstd::prelude::*;
use vstd::string::StringExecFns;
use vstd::string::StringSliceAdditionalSpecFns;
use vstd::utf8::decode_utf8;
use vstd::utf8::valid_utf8;

verus! {

/// A text in lower case, as std gives it.
pub uninterp spec fn lowered(s: Seq<char>) -> Seq<char>;

/// A text without the white space at its ends, as std trims it.
pub uninterp spec fn trimmed(s: Seq<char>) -> Seq<char>;

/// Calls `str::to_lowercase` of std. Trusted: the result is a function of
/// the text alone.
#[verifier::external_body]
pub(crate) fn to_lower(s: &str) -> (r: String)
    ensures
        r@ == lowered(s@),
{
    s.to_lowercase()
}

/// Calls `str::trim` of std. Trusted: the result is a function of the text
/// alone.
#[verifier::external_body]
pub(crate) fn trim_text(s: &str) -> (r: String)
    ensures
        r@ == trimmed(s@),
{
    s.trim().to_owned()
}

/// Whether a byte separates two entries of a list: a comma or ASCII white
/// space.
pub open spec fn is_separator(b: u8) -> bool {
    b == 0x2c || b == 0x20 || b == 0x09 || b == 0x0a || b == 0x0c || b == 0x0d
}

/// The pieces between the separators of a text, empty ones included.
pub open spec fn split_spec(bytes: Seq<u8>) -> Seq<Seq<u8>>
    decreases bytes.len(),
{
    if bytes.len() == 0 {
        seq![Seq::empty()]
    } else {
        let before = split_spec(bytes.drop_last());
        if is_separator(bytes.last()) {
            before.push(Seq::empty())
        } else {
            before.drop_last().push(before.last().push(bytes.last()))
        }
    }
}

/// What a piece adds to the entries: itself, trimmed, unless nothing is
/// left of it.
pub open spec fn entry_of(piece: Seq<u8>) -> Option<Seq<char>> {
    if valid_utf8(piece) && trimmed(decode_utf8(piece)).len() > 0 {
        Some(trimmed(decode_utf8(piece)))
    } else {
        None
    }
}

/// The entries that pieces give, in order.
pub open spec fn entries_spec(pieces: Seq<Seq<u8>>) -> Seq<Seq<char>>
    decreases pieces.len(),
{
    if pieces.len() == 0 {
        Seq::empty()
    } else {
        let before = entries_spec(pieces.drop_last());
        match entry_of(pieces.last()) {
            Some(e) => before.push(e),
            None => before,
        }
    }
}

/// Whether a byte separates two entries of a list.
pub fn separates(b: u8) -> (r: bool)
    ensures
        r == is_separator(b),
{
    b == 0x2c || b == 0x20 || b == 0x09 || b == 0x0a || b == 0x0c || b == 0x0d
}

/// Adds what a trimmed piece gives to the entries.
pub fn keep_entry(out: &mut Vec<String>, entry: String)
    ensures
        texts(final(out)@) == if entry@.len() > 0 {
            texts(old(out)@).push(entry@)
        } else {
            texts(old(out)@)
        },
{
    if !entry.as_str().is_empty() {
        out.push(entry);
        assert(texts(out@) =~= texts(old(out)@).push(entry@));
    }
}

fn flush(out: &mut Vec<String>, piece: Vec<u8>)
    ensures
        texts(final(out)@) == match entry_of(piece@) {
            Some(e) => texts(old(out)@).push(e),
            None => texts(old(out)@),
        },
{
    match utf8_string(piece) {
        Some(text) => {
            let entry = trim_text(text.as_str());
            keep_entry(out, entry);
        },
        None => {},
    }
}

/// Reads a list of destinations: the text is split at commas and ASCII
/// white space, each piece is trimmed, and the pieces of which something
/// is left are the entries, in their order.
pub fn parse_proxy_list(text: &str) -> (out: Vec<String>)
    ensures
        texts(out@) == entries_spec(split_spec(text.spec_bytes())),
{
    let bytes = text.as_bytes();
    let mut out: Vec<String> = Vec::new();
    let mut piece: Vec<u8> = Vec::new();
    let ghost mut done: Seq<Seq<u8>> = Seq::empty();
    let mut i: usize = 0;
    assert(bytes@.take(0) =~= Seq::<u8>::empty());
    assert(split_spec(bytes@.take(0)) =~= done.push(piece@));
    assert(texts(out@) =~= entries_spec(done));
    while i < bytes.len()
        invariant
            i <= bytes.len(),
            split_spec(bytes@.take(i as int)) == done.push(piece@),
            texts(out@) == entries_spec(done),
        decreases bytes.len() - i,
    {
        let b: u8 = bytes[i];
        proof {
            assert(bytes@.take(i + 1).drop_last() =~= bytes@.take(i as int));
            assert(bytes@.take(i + 1).last() == b);
            assert(done.push(piece@).drop_last() =~= done);
            assert(done.push(piece@).last() == piece@);
        }
        if separates(b) {
            let full = piece;
            piece = Vec::new();
            proof {
                assert(piece@ =~= Seq::<u8>::empty());
                assert(done.push(full@).drop_last() =~= done);
                done = done.push(full@);
            }
            flush(&mut out, full);
        } else {
            piece.push(b);
        }
        i += 1;
    }
    proof {
        assert(bytes@.take(i as int) =~= bytes@);
        assert(done.push(piece@).drop_last() =~= done);
    }
    flush(&mut out, piece);
    out
}

/// Whether a text in lower case is one of the words that switch a flag on.
pub fn is_truthy_word(word: &String) -> (r: bool)
    ensures
        r == (word@ == "true"@ || word@ == "1"@ || word@ == "yes"@ || word@ == "on"@),
{
    *word == String::from_str("true") || *word == String::from_str("1") || *word
        == String::from_str("yes") || *word == String::from_str("on")
}

/// Whether a configured flag is switched on: it is set, and in lower case
/// it is `true`, `1`, `yes` or `on`.
pub fn flag_enabled(value: &Option<String>) -> (r: bool)
    ensures
        r == match *value {
            Some(v) => {
                let w = lowered(v@);
                w == "true"@ || w == "1"@ || w == "yes"@ || w == "on"@
            },
            None => false,
        },
{
    match value {
        Some(v) => {
            let word = to_lower(v.as_str());
            is_truthy_word(&word)
        },
        None => false,
    }
}

/// The redirect address: the configured one, or the default where none is
/// configured.
pub fn redirect_url(value: Option<String>) -> (r: String)
    ensures
        r@ == match value {
            Some(v) => v@,
            None => "https://example.com"@,
        },
{
    match value {
        Some(v) => v,
        None => String::from_str("https://example.com"),
    }
}

} // verus!
