//! Host classification for WebSocket URLs: `localhost` and private or
//! loopback IPv4 addresses are reached over `ws://`, anything else over
//! `wss://`.

use vstd::prelude::*;

use crate::text::{chars_of, concat, decimal, decimal_text, same_text};

verus! {

pub open spec fn is_digit(c: char) -> bool {
    '0' <= c && c <= '9'
}

/// The decimal value of a string of digits.
pub open spec fn dec_value(t: Seq<char>) -> int
    decreases t.len(),
{
    if t.len() == 0 {
        0
    } else {
        dec_value(t.drop_last()) * 10 + (t.last() as int - '0' as int)
    }
}

/// `t` is an octet in dotted-decimal notation: one to three digits, no
/// leading zero, value at most 255.
pub open spec fn octet_text(t: Seq<char>) -> bool {
    &&& 1 <= t.len() <= 3
    &&& forall|i: int| 0 <= i < t.len() ==> is_digit(#[trigger] t[i])
    &&& (t.len() > 1 ==> t[0] != '0')
    &&& dec_value(t) <= 255
}

/// The dot-separated fields of `s`, in order (one empty field for an empty
/// string).
pub open spec fn dot_fields(s: Seq<char>) -> Seq<Seq<char>>
    decreases s.len(),
{
    if s.len() == 0 {
        seq![Seq::empty()]
    } else {
        let f = dot_fields(s.drop_last());
        if s.last() == '.' {
            f.push(Seq::empty())
        } else {
            f.update(f.len() - 1, f.last().push(s.last()))
        }
    }
}

/// `s` is an IPv4 address in dotted-decimal notation.
pub open spec fn is_ipv4_text(s: Seq<char>) -> bool {
    &&& dot_fields(s).len() == 4
    &&& forall|i: int| 0 <= i < 4 ==> octet_text(#[trigger] dot_fields(s)[i])
}

/// The `i`-th octet of the address that `s` writes.
pub open spec fn octet_of(s: Seq<char>, i: int) -> int {
    dec_value(dot_fields(s)[i])
}

/// Loopback (127/8) or private (10/8, 172.16/12, 192.168/16) octets.
pub open spec fn private_or_loopback(a: int, b: int) -> bool {
    a == 127 || a == 10 || (a == 172 && 16 <= b <= 31) || (a == 192 && b == 168)
}

/// Hosts that are reached without TLS.
pub open spec fn local_host(s: Seq<char>) -> bool {
    s == "localhost"@ || (is_ipv4_text(s) && private_or_loopback(octet_of(s, 0), octet_of(s, 1)))
}

proof fn lemma_dot_fields_nonempty(s: Seq<char>)
    ensures
        dot_fields(s).len() >= 1,
    decreases s.len(),
{
    if s.len() > 0 {
        lemma_dot_fields_nonempty(s.drop_last());
    }
}

/// Splits `s` at each dot.
fn split_dots(s: &Vec<char>) -> (r: Vec<Vec<char>>)
    ensures
        r@.len() == dot_fields(s@).len(),
        forall|i: int| 0 <= i < r@.len() ==> #[trigger] r@[i]@ == dot_fields(s@)[i],
{
    let mut done: Vec<Vec<char>> = Vec::new();
    let mut current: Vec<char> = Vec::new();
    let mut i: usize = 0;
    while i < s.len()
        invariant
            i <= s@.len(),
            dot_fields(s@.subrange(0, i as int)).len() == done@.len() + 1,
            forall|j: int| 0 <= j < done@.len() ==> #[trigger] done@[j]@ == dot_fields(s@.subrange(0, i as int))[j],
            current@ == dot_fields(s@.subrange(0, i as int)).last(),
        decreases s.len() - i,
    {
        let ghost pre = s@.subrange(0, i as int);
        proof {
            lemma_dot_fields_nonempty(pre);
            assert(s@.subrange(0, i + 1).drop_last() =~= pre);
        }
        let c = s[i];
        if c == '.' {
            let mut fresh: Vec<char> = Vec::new();
            std::mem::swap(&mut fresh, &mut current);
            done.push(fresh);
        } else {
            current.push(c);
        }
        i = i + 1;
    }
    assert(s@.subrange(0, s@.len() as int) =~= s@);
    let ghost fin = done@;
    done.push(current);
    proof {
        assert forall|j: int| 0 <= j < done@.len() implies #[trigger] done@[j]@ == dot_fields(s@)[j] by {
            if j < fin.len() {
                assert(done@[j] == fin[j]);
            }
        }
    }
    done
}

/// The octet that `t` writes, if it is one.
fn parse_octet(t: &Vec<char>) -> (r: Option<u8>)
    ensures
        r is Some <==> octet_text(t@),
        r matches Some(v) ==> v as int == dec_value(t@),
{
    let n = t.len();
    if n == 0 || n > 3 {
        return None;
    }
    if n > 1 && t[0] == '0' {
        return None;
    }
    let mut value: u32 = 0;
    let mut i: usize = 0;
    while i < n
        invariant
            n == t@.len(),
            1 <= n <= 3,
            i <= n,
            forall|j: int| 0 <= j < i ==> is_digit(#[trigger] t@[j]),
            value as int == dec_value(t@.subrange(0, i as int)),
            value < 1000,
            i == 0 ==> value == 0,
            i == 1 ==> value < 10,
            i == 2 ==> value < 100,
        decreases n - i,
    {
        let c = t[i];
        if !('0' <= c && c <= '9') {
            return None;
        }
        assert(t@.subrange(0, i + 1).drop_last() =~= t@.subrange(0, i as int));
        value = value * 10 + (c as u32 - '0' as u32);
        i = i + 1;
    }
    assert(t@.subrange(0, n as int) =~= t@);
    if value > 255 {
        None
    } else {
        Some(value as u8)
    }
}

/// The four octets of a dotted-decimal IPv4 address, if `host` is one.
pub fn parse_ipv4(host: &str) -> (r: Option<[u8; 4]>)
    ensures
        r is Some <==> is_ipv4_text(host@),
        r matches Some(o) ==> forall|i: int| 0 <= i < 4 ==> #[trigger] o@[i] as int == octet_of(host@, i),
{
    let chars = chars_of(host);
    let fields = split_dots(&chars);
    if fields.len() != 4 {
        return None;
    }
    let a = parse_octet(&fields[0]);
    let b = parse_octet(&fields[1]);
    let c = parse_octet(&fields[2]);
    let d = parse_octet(&fields[3]);
    match (a, b, c, d) {
        (Some(a), Some(b), Some(c), Some(d)) => {
            let r = [a, b, c, d];
            proof {
                assert forall|i: int| 0 <= i < 4 implies octet_text(#[trigger] dot_fields(host@)[i]) by {
                    assert(fields@[i]@ == dot_fields(host@)[i]);
                }
                assert forall|i: int| 0 <= i < 4 implies #[trigger] r@[i] as int == octet_of(host@, i) by {
                    assert(fields@[i]@ == dot_fields(host@)[i]);
                }
            }
            Some(r)
        },
        _ => {
            proof {
                assert(!octet_text(dot_fields(host@)[0]) || !octet_text(dot_fields(host@)[1])
                    || !octet_text(dot_fields(host@)[2]) || !octet_text(dot_fields(host@)[3])) by {
                    assert(fields@[0]@ == dot_fields(host@)[0]);
                    assert(fields@[1]@ == dot_fields(host@)[1]);
                    assert(fields@[2]@ == dot_fields(host@)[2]);
                    assert(fields@[3]@ == dot_fields(host@)[3]);
                }
            }
            None
        },
    }
}

/// Whether `host` is `localhost` or a loopback or private IPv4 address.
pub fn is_local_host(host: &str) -> (r: bool)
    ensures
        r == local_host(host@),
{
    if same_text(host, "localhost") {
        return true;
    }
    match parse_ipv4(host) {
        Some(o) => {
            proof {
                assert(o@[0] as int == octet_of(host@, 0));
                assert(o@[1] as int == octet_of(host@, 1));
            }
            o[0] == 127 || o[0] == 10 || (o[0] == 172 && 16 <= o[1] && o[1] <= 31) || (o[0] == 192
                && o[1] == 168)
        },
        None => false,
    }
}

/// The URL scheme for a host: `ws` for local hosts, `wss` otherwise.
pub fn ws_scheme(host: &str) -> (r: &'static str)
    ensures
        local_host(host@) ==> r@ == "ws"@,
        !local_host(host@) ==> r@ == "wss"@,
{
    if is_local_host(host) {
        "ws"
    } else {
        "wss"
    }
}

/// The WebSocket URL of a host and port: `<scheme>://<host>:<port>`.
pub fn ws_url(host: &str, port: u16) -> (r: String)
    ensures
        r@ == (if local_host(host@) { "ws"@ } else { "wss"@ }) + "://"@ + host@ + ":"@ + decimal(port as nat),
{
    let head = concat(ws_scheme(host), "://");
    let with_host = concat(head.as_str(), host);
    let with_colon = concat(with_host.as_str(), ":");
    let digits = decimal_text(port as u64);
    concat(with_colon.as_str(), digits.as_str())
}

/// Law of scheme selection: a dotted-decimal address is local exactly when
/// its octets are loopback or private, and a host that is neither
/// `localhost` nor an IPv4 address is never local.
pub proof fn lemma_scheme_by_host(s: Seq<char>)
    ensures
        is_ipv4_text(s) ==> (local_host(s) <==> private_or_loopback(octet_of(s, 0), octet_of(s, 1))),
        (s != "localhost"@ && !is_ipv4_text(s)) ==> !local_host(s),
{
    reveal_strlit("localhost");
    if is_ipv4_text(s) && s == "localhost"@ {
        reveal_with_fuel(dot_fields, 10);
        assert(dot_fields(s).len() == 1);
    }
}

} // verus!
