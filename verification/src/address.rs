//! The tagged target address of a request: an IPv4 address, a domain name or
//! an IPv6 address, read from a byte string and given as text.

use vstd::prelude::*;
use vstd::slice::slice_subrange;
use vstd::slice::slice_to_vec;
use vstd::utf8::decode_utf8;
use vstd::utf8::valid_utf8;

verus! {

/// Tag of a 4-byte IPv4 address.
pub const TAG_IPV4: u8 = 0x01;

/// Tag of a length-prefixed domain name.
pub const TAG_DOMAIN: u8 = 0x02;

/// Tag of a 16-byte IPv6 address.
pub const TAG_IPV6: u8 = 0x03;

/// Why an address field could not be read.
#[derive(Clone, Copy, Debug, PartialEq, Eq, Structural)]
pub enum AddressError {
    /// The bytes end before the field does.
    Truncated,
    /// The tag is none of the three known ones.
    UnknownTag,
    /// The domain name is not valid UTF-8.
    InvalidName,
}

/// The character of a digit below sixteen, lower case.
pub open spec fn digit(d: int) -> char {
    if d == 0 {
        '0'
    } else if d == 1 {
        '1'
    } else if d == 2 {
        '2'
    } else if d == 3 {
        '3'
    } else if d == 4 {
        '4'
    } else if d == 5 {
        '5'
    } else if d == 6 {
        '6'
    } else if d == 7 {
        '7'
    } else if d == 8 {
        '8'
    } else if d == 9 {
        '9'
    } else if d == 10 {
        'a'
    } else if d == 11 {
        'b'
    } else if d == 12 {
        'c'
    } else if d == 13 {
        'd'
    } else if d == 14 {
        'e'
    } else {
        'f'
    }
}

/// A byte in decimal, without leading zeros.
pub open spec fn decimal(n: int) -> Seq<char> {
    if n >= 100 {
        seq![digit(n / 100), digit((n / 10) % 10), digit(n % 10)]
    } else if n >= 10 {
        seq![digit(n / 10), digit(n % 10)]
    } else {
        seq![digit(n)]
    }
}

/// A 16-bit group in hexadecimal, lower case, without leading zeros.
pub open spec fn hex(g: int) -> Seq<char> {
    if g >= 0x1000 {
        seq![digit(g / 0x1000), digit((g / 0x100) % 16), digit((g / 16) % 16), digit(g % 16)]
    } else if g >= 0x100 {
        seq![digit(g / 0x100), digit((g / 16) % 16), digit(g % 16)]
    } else if g >= 0x10 {
        seq![digit(g / 16), digit(g % 16)]
    } else {
        seq![digit(g)]
    }
}

/// Four bytes in dotted decimal.
pub open spec fn ipv4_text(b: Seq<u8>) -> Seq<char> {
    decimal(b[0] as int) + seq!['.'] + decimal(b[1] as int) + seq!['.'] + decimal(b[2] as int)
        + seq!['.'] + decimal(b[3] as int)
}

/// The `i`-th 16-bit group of sixteen bytes, big-endian.
pub open spec fn group(b: Seq<u8>, i: int) -> int {
    b[2 * i] as int * 256 + b[2 * i + 1] as int
}

/// The groups `from..to` in hexadecimal, separated by colons.
pub open spec fn joined(b: Seq<u8>, from: int, to: int) -> Seq<char>
    decreases to - from,
{
    if from >= to {
        Seq::empty()
    } else if from + 1 == to {
        hex(group(b, from))
    } else {
        joined(b, from, to - 1) + seq![':'] + hex(group(b, to - 1))
    }
}

/// How many groups in a row, from group `i` on, are zero.
pub open spec fn zero_run(b: Seq<u8>, i: int) -> int
    decreases 8 - i,
{
    if i < 0 || i >= 8 || group(b, i) != 0 {
        0
    } else {
        1 + zero_run(b, i + 1)
    }
}

/// Where the longest run of zero groups starts among the first `n` groups;
/// of several longest runs, the first.
pub open spec fn longest_run_start(b: Seq<u8>, n: int) -> int
    decreases n,
{
    if n <= 1 {
        0
    } else {
        let p = longest_run_start(b, n - 1);
        if zero_run(b, n - 1) > zero_run(b, p) {
            n - 1
        } else {
            p
        }
    }
}

/// Whether sixteen bytes are an IPv4 address mapped into IPv6.
pub open spec fn is_mapped(b: Seq<u8>) -> bool {
    (forall|i: int| 0 <= i < 10 ==> b[i] == 0) && b[10] == 0xff && b[11] == 0xff
}

/// Sixteen bytes as canonical IPv6 text: groups in lower-case hexadecimal
/// without leading zeros, the first longest run of two or more zero groups
/// shortened to `::`, and a mapped IPv4 address in dotted decimal.
pub open spec fn ipv6_text(b: Seq<u8>) -> Seq<char> {
    if is_mapped(b) {
        seq![':', ':', 'f', 'f', 'f', 'f', ':'] + ipv4_text(b.subrange(12, 16))
    } else {
        let s = longest_run_start(b, 8);
        let n = zero_run(b, s);
        if n >= 2 {
            joined(b, 0, s) + seq![':', ':'] + joined(b, s + n, 8)
        } else {
            joined(b, 0, 8)
        }
    }
}

/// What `parse_addr` returns on `data` from position `pos`: the text of the
/// address and the position behind the field.
pub open spec fn parse_addr_spec(data: Seq<u8>, pos: int) -> Result<(Seq<char>, int), AddressError> {
    if pos >= data.len() {
        Err(AddressError::Truncated)
    } else if data[pos] == TAG_IPV4 {
        if pos + 5 > data.len() {
            Err(AddressError::Truncated)
        } else {
            Ok((ipv4_text(data.subrange(pos + 1, pos + 5)), pos + 5))
        }
    } else if data[pos] == TAG_DOMAIN {
        if pos + 2 > data.len() || pos + 2 + data[pos + 1] > data.len() {
            Err(AddressError::Truncated)
        } else {
            let name = data.subrange(pos + 2, pos + 2 + data[pos + 1]);
            if valid_utf8(name) {
                Ok((decode_utf8(name), pos + 2 + data[pos + 1]))
            } else {
                Err(AddressError::InvalidName)
            }
        }
    } else if data[pos] == TAG_IPV6 {
        if pos + 17 > data.len() {
            Err(AddressError::Truncated)
        } else {
            Ok((ipv6_text(data.subrange(pos + 1, pos + 17)), pos + 17))
        }
    } else {
        Err(AddressError::UnknownTag)
    }
}

/// Calls `String::from_utf8` of std. Trusted: the call succeeds exactly on
/// valid UTF-8, and the string then holds the characters that the bytes
/// encode.
#[verifier::external_body]
pub(crate) fn utf8_string(bytes: Vec<u8>) -> (r: Option<String>)
    ensures
        r is Some <==> valid_utf8(bytes@),
        r matches Some(s) ==> s@ == decode_utf8(bytes@),
{
    String::from_utf8(bytes).ok()
}

/// Calls std's `FromIterator<char>` for `String`. Trusted: the string holds
/// the characters of the vector, in order.
#[verifier::external_body]
pub(crate) fn string_of(chars: &Vec<char>) -> (r: String)
    ensures
        r@ == chars@,
{
    String::from_iter(chars.iter())
}

fn digit_char(d: u16) -> (c: char)
    requires
        d < 16,
    ensures
        c == digit(d as int),
{
    if d == 0 {
        '0'
    } else if d == 1 {
        '1'
    } else if d == 2 {
        '2'
    } else if d == 3 {
        '3'
    } else if d == 4 {
        '4'
    } else if d == 5 {
        '5'
    } else if d == 6 {
        '6'
    } else if d == 7 {
        '7'
    } else if d == 8 {
        '8'
    } else if d == 9 {
        '9'
    } else if d == 10 {
        'a'
    } else if d == 11 {
        'b'
    } else if d == 12 {
        'c'
    } else if d == 13 {
        'd'
    } else if d == 14 {
        'e'
    } else {
        'f'
    }
}

fn push_decimal(out: &mut Vec<char>, n: u8)
    ensures
        final(out)@ == old(out)@ + decimal(n as int),
{
    let v: u16 = n as u16;
    if v >= 100 {
        out.push(digit_char(v / 100));
    }
    if v >= 10 {
        out.push(digit_char((v / 10) % 10));
    }
    out.push(digit_char(v % 10));
    assert(out@ =~= old(out)@ + decimal(n as int));
}

fn push_hex(out: &mut Vec<char>, g: u16)
    ensures
        final(out)@ == old(out)@ + hex(g as int),
{
    if g >= 0x1000 {
        out.push(digit_char(g / 0x1000));
    }
    if g >= 0x100 {
        out.push(digit_char((g / 0x100) % 16));
    }
    if g >= 0x10 {
        out.push(digit_char((g / 16) % 16));
    }
    out.push(digit_char(g % 16));
    assert(out@ =~= old(out)@ + hex(g as int));
}

fn push_ipv4(out: &mut Vec<char>, b: &[u8])
    requires
        b@.len() == 4,
    ensures
        final(out)@ == old(out)@ + ipv4_text(b@),
{
    push_decimal(out, b[0]);
    out.push('.');
    push_decimal(out, b[1]);
    out.push('.');
    push_decimal(out, b[2]);
    out.push('.');
    push_decimal(out, b[3]);
    assert(out@ =~= old(out)@ + ipv4_text(b@));
}

fn group_at(b: &[u8], i: usize) -> (g: u16)
    requires
        b@.len() == 16,
        i < 8,
    ensures
        g == group(b@, i as int),
{
    let hi: u16 = b[2 * i] as u16;
    let lo: u16 = b[2 * i + 1] as u16;
    hi * 256 + lo
}

fn push_joined(out: &mut Vec<char>, b: &[u8], from: usize, to: usize)
    requires
        b@.len() == 16,
        from <= to <= 8,
    ensures
        final(out)@ == old(out)@ + joined(b@, from as int, to as int),
{
    let mut k: usize = from;
    assert(out@ =~= old(out)@ + joined(b@, from as int, from as int));
    while k < to
        invariant
            b@.len() == 16,
            from <= k <= to <= 8,
            out@ == old(out)@ + joined(b@, from as int, k as int),
        decreases to - k,
    {
        if k > from {
            out.push(':');
        }
        push_hex(out, group_at(b, k));
        assert(out@ =~= old(out)@ + joined(b@, from as int, k + 1));
        k += 1;
    }
}

fn run_at(b: &[u8], i: usize) -> (n: usize)
    requires
        b@.len() == 16,
        i < 8,
    ensures
        n == zero_run(b@, i as int),
        i + n <= 8,
{
    let mut j: usize = i;
    while j < 8 && group_at(b, j) == 0
        invariant
            b@.len() == 16,
            i <= j <= 8,
            zero_run(b@, i as int) == (j - i) + zero_run(b@, j as int),
        decreases 8 - j,
    {
        j += 1;
    }
    j - i
}

fn mapped(b: &[u8]) -> (r: bool)
    requires
        b@.len() == 16,
    ensures
        r == is_mapped(b@),
{
    let mut i: usize = 0;
    while i < 10
        invariant
            b@.len() == 16,
            i <= 10,
            forall|j: int| 0 <= j < i ==> b@[j] == 0,
        decreases 10 - i,
    {
        if b[i] != 0 {
            return false;
        }
        i += 1;
    }
    b[10] == 0xff && b[11] == 0xff
}

fn push_ipv6(out: &mut Vec<char>, b: &[u8])
    requires
        b@.len() == 16,
    ensures
        final(out)@ == old(out)@ + ipv6_text(b@),
{
    if mapped(b) {
        out.push(':');
        out.push(':');
        out.push('f');
        out.push('f');
        out.push('f');
        out.push('f');
        out.push(':');
        let tail = slice_subrange(b, 12, 16);
        push_ipv4(out, tail);
        assert(out@ =~= old(out)@ + ipv6_text(b@));
        return ;
    }
    let mut start: usize = 0;
    let mut best: usize = run_at(b, 0);
    let mut n: usize = 1;
    while n < 8
        invariant
            b@.len() == 16,
            1 <= n <= 8,
            start < n,
            start == longest_run_start(b@, n as int),
            best == zero_run(b@, start as int),
            start + best <= 8,
        decreases 8 - n,
    {
        let here = run_at(b, n);
        if here > best {
            start = n;
            best = here;
        }
        n += 1;
    }
    if best >= 2 {
        push_joined(out, b, 0, start);
        out.push(':');
        out.push(':');
        push_joined(out, b, start + best, 8);
    } else {
        push_joined(out, b, 0, 8);
    }
    assert(out@ =~= old(out)@ + ipv6_text(b@));
}

/// Four bytes as dotted-decimal text.
pub fn format_ipv4(b: &[u8]) -> (r: String)
    requires
        b@.len() == 4,
    ensures
        r@ == ipv4_text(b@),
{
    let mut out: Vec<char> = Vec::new();
    push_ipv4(&mut out, b);
    assert(out@ =~= ipv4_text(b@));
    string_of(&out)
}

/// Sixteen bytes as canonical IPv6 text.
pub fn format_ipv6(b: &[u8]) -> (r: String)
    requires
        b@.len() == 16,
    ensures
        r@ == ipv6_text(b@),
{
    let mut out: Vec<char> = Vec::new();
    push_ipv6(&mut out, b);
    assert(out@ =~= ipv6_text(b@));
    string_of(&out)
}

/// The view of a parse result.
pub open spec fn parsed_view(r: Result<(String, usize), AddressError>) -> Result<
    (Seq<char>, int),
    AddressError,
> {
    match r {
        Ok((text, next)) => Ok((text@, next as int)),
        Err(e) => Err(e),
    }
}

/// Reads the tagged address that starts at `pos`: tag 1 with four bytes of
/// IPv4, tag 2 with a length byte and a UTF-8 domain name, tag 3 with
/// sixteen bytes of IPv6. Returns the address as text and the position behind
/// it.
pub fn parse_addr(data: &[u8], pos: usize) -> (r: Result<(String, usize), AddressError>)
    ensures
        parsed_view(r) == parse_addr_spec(data@, pos as int),
{
    if pos >= data.len() {
        return Err(AddressError::Truncated);
    }
    let rest: usize = data.len() - pos;
    let tag: u8 = data[pos];
    if tag == TAG_IPV4 {
        if rest < 5 {
            return Err(AddressError::Truncated);
        }
        let text = format_ipv4(slice_subrange(data, pos + 1, pos + 5));
        Ok((text, pos + 5))
    } else if tag == TAG_DOMAIN {
        if rest < 2 {
            return Err(AddressError::Truncated);
        }
        let n: usize = data[pos + 1] as usize;
        if rest - 2 < n {
            return Err(AddressError::Truncated);
        }
        let name = slice_to_vec(slice_subrange(data, pos + 2, pos + 2 + n));
        match utf8_string(name) {
            Some(text) => Ok((text, pos + 2 + n)),
            None => Err(AddressError::InvalidName),
        }
    } else if tag == TAG_IPV6 {
        if rest < 17 {
            return Err(AddressError::Truncated);
        }
        let text = format_ipv6(slice_subrange(data, pos + 1, pos + 17));
        Ok((text, pos + 17))
    } else {
        Err(AddressError::UnknownTag)
    }
}

} // verus!
