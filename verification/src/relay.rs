//! The destinations of a TCP relay: the decoded target first, then the
//! configured fallbacks, and the host and port that each stands for.

use vstd::prelude::*;

verus! {

/// The texts of a sequence of strings.
pub open spec fn texts(v: Seq<String>) -> Seq<Seq<char>> {
    Seq::new(v.len(), |i: int| v[i]@)
}

/// The candidates of a relay: the target, then the fallbacks in order.
pub open spec fn candidate_list(target: Seq<char>, fallbacks: Seq<Seq<char>>) -> Seq<Seq<char>> {
    seq![target] + fallbacks
}

/// The position of the last colon of a text.
pub open spec fn last_colon(s: Seq<char>) -> Option<int>
    decreases s.len(),
{
    if s.len() == 0 {
        None
    } else if s.last() == ':' {
        Some(s.len() - 1)
    } else {
        last_colon(s.drop_last())
    }
}

/// The value of a decimal digit.
pub open spec fn digit_value(c: char) -> Option<nat> {
    if 0x30 <= c as u32 && c as u32 <= 0x39 {
        Some((c as u32 - 0x30) as nat)
    } else {
        None
    }
}

/// The number that a non-empty text of decimal digits stands for.
pub open spec fn number_of(s: Seq<char>) -> Option<nat>
    decreases s.len(),
{
    if s.len() == 0 {
        None
    } else {
        match digit_value(s.last()) {
            None => None,
            Some(d) => if s.len() == 1 {
                Some(d)
            } else {
                match number_of(s.drop_last()) {
                    None => None,
                    Some(n) => Some(n * 10 + d),
                }
            },
        }
    }
}

/// The port that a text stands for: decimal digits, a plus sign in front
/// of them at most, and a value that fits in sixteen bits.
pub open spec fn port_of_text(s: Seq<char>) -> Option<u16> {
    let digits = if s.len() > 0 && s[0] == '+' {
        s.skip(1)
    } else {
        s
    };
    match number_of(digits) {
        Some(n) => if n <= 65535 {
            Some(n as u16)
        } else {
            None
        },
        None => None,
    }
}

/// The host and port that a candidate stands for. A candidate that is one
/// of the fallbacks is split at its last colon, and what follows the colon
/// is its port where it reads as one; every other candidate is a host, to
/// be reached at the decoded port.
pub open spec fn endpoint_spec(candidate: Seq<char>, fallbacks: Seq<Seq<char>>, port: u16) -> (
    Seq<char>,
    u16,
) {
    if fallbacks.contains(candidate) {
        match last_colon(candidate) {
            Some(i) => (
                candidate.take(i),
                match port_of_text(candidate.skip(i + 1)) {
                    Some(p) => p,
                    None => port,
                },
            ),
            None => (candidate, port),
        }
    } else {
        (candidate, port)
    }
}

/// Calls `str::rsplit_once` of std. Trusted: where the text holds the
/// delimiter, the result is what stands before and behind the last one;
/// else there is none.
#[verifier::external_body]
pub(crate) fn rsplit_at(s: &str, delimiter: char) -> (r: Option<(String, String)>)
    ensures
        match r {
            Some((head, rest)) => s@ == head@ + seq![delimiter] + rest@ && !rest@.contains(
                delimiter,
            ),
            None => !s@.contains(delimiter),
        },
{
    match s.rsplit_once(delimiter) {
        Some((head, rest)) => Some((head.to_owned(), rest.to_owned())),
        None => None,
    }
}

/// Calls `str::parse::<u16>` of std. Trusted: the text is read as decimal
/// digits with an optional plus sign in front, and a text of any other
/// shape, or a value beyond sixteen bits, gives none.
#[verifier::external_body]
pub(crate) fn parse_port(s: &str) -> (r: Option<u16>)
    ensures
        r == port_of_text(s@),
{
    s.parse::<u16>().ok()
}

/// A text without a colon has no last colon.
pub proof fn no_colon(s: Seq<char>)
    requires
        !s.contains(':'),
    ensures
        last_colon(s) is None,
    decreases s.len(),
{
    if s.len() > 0 {
        assert(s.last() == s[s.len() - 1]);
        assert forall|i: int| 0 <= i < s.drop_last().len() implies s.drop_last()[i] != ':' by {
            assert(s.drop_last()[i] == s[i]);
        }
        no_colon(s.drop_last());
    }
}

/// Where no colon follows it, a colon is the last one.
pub proof fn colon_is_last(host: Seq<char>, rest: Seq<char>)
    requires
        !rest.contains(':'),
    ensures
        last_colon(host + seq![':'] + rest) == Some(host.len() as int),
    decreases rest.len(),
{
    let s = host + seq![':'] + rest;
    if rest.len() == 0 {
        assert(s.last() == ':');
    } else {
        assert(s.last() == rest.last());
        assert(rest.last() == rest[rest.len() - 1]);
        assert(s.drop_last() =~= host + seq![':'] + rest.drop_last());
        assert forall|i: int| 0 <= i < rest.drop_last().len() implies rest.drop_last()[i]
            != ':' by {
            assert(rest.drop_last()[i] == rest[i]);
        }
        colon_is_last(host, rest.drop_last());
    }
}

/// A fallback without a colon is a bare host: it is reached at the
/// decoded port.
pub proof fn bare_host_inherits_port(candidate: Seq<char>, fallbacks: Seq<Seq<char>>, port: u16)
    requires
        !candidate.contains(':'),
    ensures
        endpoint_spec(candidate, fallbacks, port) == (candidate, port),
{
    no_colon(candidate);
}

/// Whether one of the fallbacks is this candidate.
pub fn is_fallback(candidate: &String, fallbacks: &Vec<String>) -> (r: bool)
    ensures
        r == texts(fallbacks@).contains(candidate@),
{
    let mut i: usize = 0;
    while i < fallbacks.len()
        invariant
            i <= fallbacks.len(),
            forall|j: int| 0 <= j < i ==> texts(fallbacks@)[j] != candidate@,
        decreases fallbacks.len() - i,
    {
        if fallbacks[i] == *candidate {
            assert(texts(fallbacks@)[i as int] == candidate@);
            return true;
        }
        i += 1;
    }
    false
}

/// Builds the candidates of a relay: the decoded target is always tried
/// before any fallback, and the fallbacks keep their order.
pub fn candidates(target: &String, fallbacks: &Vec<String>) -> (out: Vec<String>)
    ensures
        texts(out@) == candidate_list(target@, texts(fallbacks@)),
        out@.len() == fallbacks@.len() + 1,
{
    let mut out: Vec<String> = Vec::new();
    out.push(target.clone());
    let mut i: usize = 0;
    while i < fallbacks.len()
        invariant
            i <= fallbacks.len(),
            out@.len() == i + 1,
            out@[0]@ == target@,
            forall|j: int| 0 <= j < i ==> out@[j + 1]@ == fallbacks@[j]@,
        decreases fallbacks.len() - i,
    {
        out.push(fallbacks[i].clone());
        i += 1;
    }
    assert(texts(out@) =~= candidate_list(target@, texts(fallbacks@)));
    out
}

/// What `endpoint` returns for what the split of a fallback gave.
pub fn split_endpoint(candidate: String, split: Option<(String, String)>, port: u16) -> (r: (
    String,
    u16,
))
    ensures
        match split {
            Some((host, rest)) => r.0@ == host@ && r.1 == (match port_of_text(rest@) {
                Some(p) => p,
                None => port,
            }),
            None => r.0@ == candidate@ && r.1 == port,
        },
{
    match split {
        Some((host, rest)) => {
            let p = match parse_port(rest.as_str()) {
                Some(p) => p,
                None => port,
            };
            (host, p)
        },
        None => (candidate, port),
    }
}

/// The host and port to connect to for a candidate.
pub fn endpoint(candidate: &String, fallbacks: &Vec<String>, port: u16) -> (r: (String, u16))
    ensures
        (r.0@, r.1) == endpoint_spec(candidate@, texts(fallbacks@), port),
{
    if is_fallback(candidate, fallbacks) {
        let split = rsplit_at(candidate.as_str(), ':');
        proof {
            if split is Some {
                let host = split->Some_0.0@;
                let rest = split->Some_0.1@;
                colon_is_last(host, rest);
                assert(candidate@.take(host.len() as int) =~= host);
                assert(candidate@.skip(host.len() as int + 1) =~= rest);
            } else {
                no_colon(candidate@);
            }
        }
        split_endpoint(candidate.clone(), split, port)
    } else {
        (candidate.clone(), port)
    }
}

} // verus!
