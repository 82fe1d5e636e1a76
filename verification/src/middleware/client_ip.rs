//! The client's real address, also behind a reverse proxy.
//!
//! `X-Forwarded-For` can be written by any client, so it is read only when
//! the TCP peer is a trusted proxy (loopback, RFC 1918, RFC 4193 or
//! link-local). Proxies append what they saw, so the rightmost valid entry is
//! the one our proxy wrote; the entries to its left may be forged.
use vstd::prelude::*;

use crate::text::{is_white_space, white_space};

verus! {

broadcast use vstd::string::group_string_axioms;

/// An IP address: four octets or eight 16-bit segments.
#[derive(Debug, Clone, Copy, PartialEq, Eq)]
pub enum IpAddress {
    V4([u8; 4]),
    V6([u16; 8]),
}

/// `0.0.0.0`, used when nothing better is known.
pub open spec fn unspecified() -> IpAddress {
    IpAddress::V4([0u8, 0u8, 0u8, 0u8])
}

/// The address `0.0.0.0`.
pub fn unknown_address() -> (r: IpAddress)
    ensures
        r == unspecified(),
{
    IpAddress::V4([0u8, 0u8, 0u8, 0u8])
}

/// An address on our own network, where our proxy can be: IPv4 loopback
/// (127/8), private (10/8, 172.16/12, 192.168/16) or link-local (169.254/16);
/// IPv6 loopback (::1), unique local (fc00::/7) or link-local (fe80::/10).
pub open spec fn trusted_proxy(ip: IpAddress) -> bool {
    match ip {
        IpAddress::V4(o) => {
            ||| o[0] == 127
            ||| o[0] == 10
            ||| o[0] == 172 && 16 <= o[1] <= 31
            ||| o[0] == 192 && o[1] == 168
            ||| o[0] == 169 && o[1] == 254
        },
        IpAddress::V6(s) => {
            ||| (s[0] == 0 && s[1] == 0 && s[2] == 0 && s[3] == 0 && s[4] == 0 && s[5] == 0 && s[6]
                == 0 && s[7] == 1)
            ||| (s[0] & 0xfe00u16) == 0xfc00u16
            ||| (s[0] & 0xffc0u16) == 0xfe80u16
        },
    }
}

/// Whether the address belongs to our internal network, i.e. may be our proxy.
pub fn is_trusted_proxy(ip: IpAddress) -> (r: bool)
    ensures
        r == trusted_proxy(ip),
{
    match ip {
        IpAddress::V4(o) => o[0] == 127 || o[0] == 10 || (o[0] == 172 && 16 <= o[1] && o[1] <= 31)
            || (o[0] == 192 && o[1] == 168) || (o[0] == 169 && o[1] == 254),
        IpAddress::V6(s) => (s[0] == 0 && s[1] == 0 && s[2] == 0 && s[3] == 0 && s[4] == 0 && s[5]
            == 0 && s[6] == 0 && s[7] == 1) || (s[0] & 0xfe00u16) == 0xfc00u16 || (s[0] & 0xffc0u16)
            == 0xfe80u16,
    }
}

/// The 32-bit number of an IPv4 address, most significant octet first.
pub open spec fn ipv4_number(o: [u8; 4]) -> int {
    o[0] as int * 0x100_0000 + o[1] as int * 0x1_0000 + o[2] as int * 0x100 + o[3] as int
}

/// Trusted proxies are exactly the addresses of the internal blocks:
/// 127.0.0.0/8, 10.0.0.0/8, 172.16.0.0/12, 192.168.0.0/16 and 169.254.0.0/16
/// for IPv4; ::1, fc00::/7 (first segment 0xfc00 to 0xfdff) and fe80::/10
/// (first segment 0xfe80 to 0xfebf) for IPv6.
pub proof fn trusted_proxies_are_the_internal_blocks(ip: IpAddress)
    ensures
        ip matches IpAddress::V4(o) ==> (trusted_proxy(ip) <==> {
            ||| 0x7f00_0000 <= ipv4_number(o) < 0x8000_0000
            ||| 0x0a00_0000 <= ipv4_number(o) < 0x0b00_0000
            ||| 0xac10_0000 <= ipv4_number(o) < 0xac20_0000
            ||| 0xc0a8_0000 <= ipv4_number(o) < 0xc0a9_0000
            ||| 0xa9fe_0000 <= ipv4_number(o) < 0xa9ff_0000
        }),
        ip matches IpAddress::V6(s) ==> (trusted_proxy(ip) <==> {
            ||| (forall|i: int| 0 <= i < 7 ==> s[i] == 0) && s[7] == 1
            ||| 0xfc00 <= s[0] <= 0xfdff
            ||| 0xfe80 <= s[0] <= 0xfebf
        }),
{
    match ip {
        IpAddress::V4(o) => {
            let rest = o[1] as int * 0x1_0000 + o[2] as int * 0x100 + o[3] as int;
            assert(0 <= rest < 0x100_0000);
            let low = o[2] as int * 0x100 + o[3] as int;
            assert(0 <= low < 0x1_0000);
        },
        IpAddress::V6(s) => {
            let f = s[0];
            assert((f & 0xfe00u16) == 0xfc00u16 <==> 0xfc00 <= f <= 0xfdff) by (bit_vector);
            assert((f & 0xffc0u16) == 0xfe80u16 <==> 0xfe80 <= f <= 0xfebf) by (bit_vector);
            if (forall|i: int| 0 <= i < 7 ==> s[i] == 0) {
                assert(s[0] == 0 && s[1] == 0 && s[2] == 0 && s[3] == 0 && s[4] == 0 && s[5] == 0 && s[6] == 0);
            }
        },
    }
}

/// Whether `parse` may have returned `r` for the text `e`.
pub open spec fn parses_to<P: Fn(&str) -> Option<IpAddress>>(parse: P, e: Seq<char>, r: Option<IpAddress>) -> bool {
    exists|t: &str| t@ == e && #[trigger] parse.ensures((t,), r)
}

/// Every way the text `e` can come out of one header entry: a bare address
/// (`parse_ip`), an address with a port (`parse_socket_ip`, keeping the
/// address), or a bracketed address without a port (`[::1]`), tried in that
/// order. `r` is the outcome when each parser returns what it is allowed to.
pub open spec fn entry_outcome<P: Fn(&str) -> Option<IpAddress>, Q: Fn(&str) -> Option<IpAddress>>(
    parse_ip: P,
    parse_socket_ip: Q,
    e: Seq<char>,
    r: Option<IpAddress>,
) -> bool {
    ||| r is Some && parses_to(parse_ip, e, r)
    ||| parses_to(parse_ip, e, None) && r is Some && parses_to(parse_socket_ip, e, r)
    ||| parses_to(parse_ip, e, None) && parses_to(parse_socket_ip, e, None) && if e.len() >= 2
        && e[0] == '[' && e.last() == ']' {
        parses_to(parse_ip, e.subrange(1, e.len() - 1), r)
    } else {
        r is None
    }
}

/// Turns one header entry into an address. `parse_ip` parses a bare address
/// and `parse_socket_ip` an `address:port` pair (giving the address); both
/// stand for std's `IpAddr` and `SocketAddr` parsers.
pub fn parse_entry<P: Fn(&str) -> Option<IpAddress>, Q: Fn(&str) -> Option<IpAddress>>(
    entry: &str,
    parse_ip: &P,
    parse_socket_ip: &Q,
) -> (r: Option<IpAddress>)
    requires
        forall|t: &str| #[trigger] parse_ip.requires((t,)),
        forall|t: &str| #[trigger] parse_socket_ip.requires((t,)),
    ensures
        entry_outcome(*parse_ip, *parse_socket_ip, entry@, r),
{
    let direct = parse_ip(entry);
    if direct.is_some() {
        return direct;
    }
    let with_port = parse_socket_ip(entry);
    if with_port.is_some() {
        return with_port;
    }
    let n = entry.unicode_len();
    if n >= 2 && entry.get_char(0) == '[' && entry.get_char(n - 1) == ']' {
        let inner = entry.substring_char(1, n - 1);
        let r = parse_ip(inner);
        assert(parses_to(*parse_ip, entry@.subrange(1, n - 1), r));
        r
    } else {
        None
    }
}

/// The text with leading white space removed.
pub open spec fn trim_start(s: Seq<char>) -> Seq<char>
    decreases s.len(),
{
    if s.len() > 0 && white_space(s[0]) {
        trim_start(s.drop_first())
    } else {
        s
    }
}

/// The text with trailing white space removed.
pub open spec fn trim_end(s: Seq<char>) -> Seq<char>
    decreases s.len(),
{
    if s.len() > 0 && white_space(s.last()) {
        trim_end(s.drop_last())
    } else {
        s
    }
}

/// The text with white space removed from both ends, as `str::trim` does.
pub open spec fn trim(s: Seq<char>) -> Seq<char> {
    trim_end(trim_start(s))
}

/// The pieces of a text between commas, left to right.
pub open spec fn split_commas(s: Seq<char>) -> Seq<Seq<char>>
    decreases s.len(),
{
    if s.len() == 0 {
        seq![Seq::empty()]
    } else {
        let front = split_commas(s.drop_last());
        if s.last() == ',' {
            front.push(Seq::empty())
        } else {
            front.update(front.len() - 1, front.last().push(s.last()))
        }
    }
}

/// `r` is a possible outcome of looking through the pieces from the right
/// and taking the first one that parses, once trimmed.
pub open spec fn rightmost_outcome<P: Fn(&str) -> Option<IpAddress>, Q: Fn(&str) -> Option<IpAddress>>(
    parse_ip: P,
    parse_socket_ip: Q,
    pieces: Seq<Seq<char>>,
    r: Option<IpAddress>,
) -> bool
    decreases pieces.len(),
{
    if pieces.len() == 0 {
        r is None
    } else {
        ||| r is Some && entry_outcome(parse_ip, parse_socket_ip, trim(pieces.last()), r)
        ||| entry_outcome(parse_ip, parse_socket_ip, trim(pieces.last()), None) && rightmost_outcome(
            parse_ip,
            parse_socket_ip,
            pieces.drop_last(),
            r,
        )
    }
}

/// The characters of an optional text.
pub open spec fn text_of(value: Option<&str>) -> Option<Seq<char>> {
    match value {
        Some(v) => Some(v@),
        None => None,
    }
}

/// `r` is a possible outcome of reading an `X-Forwarded-For` value: its
/// rightmost entry that parses, or nothing.
pub open spec fn forwarded_outcome<P: Fn(&str) -> Option<IpAddress>, Q: Fn(&str) -> Option<IpAddress>>(
    parse_ip: P,
    parse_socket_ip: Q,
    value: Option<Seq<char>>,
    r: Option<IpAddress>,
) -> bool {
    match value {
        Some(v) => rightmost_outcome(parse_ip, parse_socket_ip, split_commas(v), r),
        None => r is None,
    }
}

proof fn lemma_split_commas_nonempty(s: Seq<char>)
    ensures
        split_commas(s).len() >= 1,
    decreases s.len(),
{
    if s.len() > 0 {
        lemma_split_commas_nonempty(s.drop_last());
    }
}

proof fn lemma_trim_start_step(s: Seq<char>, a: int, b: int)
    requires
        0 <= a < b <= s.len(),
        white_space(s[a]),
    ensures
        trim_start(s.subrange(a, b)) == trim_start(s.subrange(a + 1, b)),
{
    assert(s.subrange(a, b).drop_first() =~= s.subrange(a + 1, b));
}

proof fn lemma_trim_end_step(s: Seq<char>, a: int, b: int)
    requires
        0 <= a < b <= s.len(),
        white_space(s[b - 1]),
    ensures
        trim_end(s.subrange(a, b)) == trim_end(s.subrange(a, b - 1)),
{
    assert(s.subrange(a, b).drop_last() =~= s.subrange(a, b - 1));
}

/// The characters of a text, in a vector.
fn chars_of(s: &str) -> (r: Vec<char>)
    ensures
        r@ == s@,
{
    let mut out: Vec<char> = Vec::new();
    for c in it: s.chars()
        invariant
            it.seq() == s@,
            out@ == s@.take(it.index() as int),
    {
        out.push(c);
        proof {
            assert(s@.take(it.index() as int + 1) =~= s@.take(it.index() as int).push(c));
        }
    }
    assert(s@.take(s@.len() as int) =~= s@);
    out
}

/// The bounds of the trimmed part of `chars[start..end]`.
fn trim_bounds(chars: &Vec<char>, start: usize, end: usize) -> (r: (usize, usize))
    requires
        start <= end <= chars@.len(),
    ensures
        start <= r.0 <= r.1 <= end,
        chars@.subrange(r.0 as int, r.1 as int) == trim(chars@.subrange(start as int, end as int)),
{
    let mut a = start;
    while a < end && is_white_space(chars[a])
        invariant
            start <= a <= end <= chars@.len(),
            trim_start(chars@.subrange(start as int, end as int)) == trim_start(
                chars@.subrange(a as int, end as int),
            ),
        decreases end - a,
    {
        proof {
            lemma_trim_start_step(chars@, a as int, end as int);
        }
        a = a + 1;
    }
    assert(trim_start(chars@.subrange(a as int, end as int)) == chars@.subrange(a as int, end as int));
    let mut b = end;
    while b > a && is_white_space(chars[b - 1])
        invariant
            start <= a <= b <= end <= chars@.len(),
            trim(chars@.subrange(start as int, end as int)) == trim_end(
                chars@.subrange(a as int, b as int),
            ),
        decreases b - a,
    {
        proof {
            lemma_trim_end_step(chars@, a as int, b as int);
        }
        b = b - 1;
    }
    (a, b)
}

proof fn lemma_split_step(s: Seq<char>, i: int)
    requires
        0 <= i < s.len(),
    ensures
        s.take(i + 1).drop_last() == s.take(i),
        s.take(i + 1).last() == s[i],
        split_commas(s.take(i + 1)) == (if s[i] == ',' {
            split_commas(s.take(i)).push(Seq::empty())
        } else {
            split_commas(s.take(i)).update(
                split_commas(s.take(i)).len() - 1,
                split_commas(s.take(i)).last().push(s[i]),
            )
        }),
{
    assert(s.take(i + 1).drop_last() =~= s.take(i));
}

/// The rightmost entry of an `X-Forwarded-For` value that is a valid address;
/// entries that do not parse are skipped.
pub fn forwarded_for<P: Fn(&str) -> Option<IpAddress>, Q: Fn(&str) -> Option<IpAddress>>(
    value: Option<&str>,
    parse_ip: &P,
    parse_socket_ip: &Q,
) -> (r: Option<IpAddress>)
    requires
        forall|t: &str| #[trigger] parse_ip.requires((t,)),
        forall|t: &str| #[trigger] parse_socket_ip.requires((t,)),
    ensures
        forwarded_outcome(*parse_ip, *parse_socket_ip, text_of(value), r),
{
    let v = match value {
        Some(v) => v,
        None => return None,
    };
    let chars = chars_of(v);
    let n = chars.len();
    let ghost s = chars@;
    let mut starts: Vec<usize> = Vec::new();
    let mut ends: Vec<usize> = Vec::new();
    starts.push(0);
    ends.push(0);
    let mut i: usize = 0;
    assert(s.take(0) =~= Seq::<char>::empty());
    while i < n
        invariant
            n == s.len(),
            s == chars@,
            i <= n,
            starts@.len() == ends@.len(),
            starts@.len() == split_commas(s.take(i as int)).len(),
            starts@.len() >= 1,
            ends@[ends@.len() - 1] == i,
            forall|k: int|
                0 <= k < starts@.len() ==> starts@[k] <= #[trigger] ends@[k] <= i && s.subrange(
                    starts@[k] as int,
                    ends@[k] as int,
                ) == split_commas(s.take(i as int))[k],
        decreases n - i,
    {
        proof {
            lemma_split_step(s, i as int);
        }
        let c = chars[i];
        if c == ',' {
            starts.push(i + 1);
            ends.push(i + 1);
            proof {
                assert(s.subrange((i + 1) as int, (i + 1) as int) =~= Seq::<char>::empty());
            }
        } else {
            let last = ends.len() - 1;
            ends.set(last, i + 1);
            proof {
                let st = starts@[last as int] as int;
                assert(s.subrange(st, i + 1) =~= s.subrange(st, i as int).push(c));
            }
        }
        i = i + 1;
    }
    assert(s.take(n as int) =~= s);
    let ghost pieces = split_commas(s);
    assert(text_of(value) == Some(s));
    let mut k = starts.len();
    assert(pieces.take(k as int) =~= pieces);
    while k > 0
        invariant
            n == s.len(),
            s == chars@,
            s == v@,
            text_of(value) == Some(s),
            pieces == split_commas(s),
            starts@.len() == ends@.len(),
            starts@.len() == pieces.len(),
            k <= pieces.len(),
            forall|j: int|
                0 <= j < starts@.len() ==> starts@[j] <= #[trigger] ends@[j] <= n && s.subrange(
                    starts@[j] as int,
                    ends@[j] as int,
                ) == pieces[j],
            forall|x: Option<IpAddress>|
                #[trigger] rightmost_outcome(*parse_ip, *parse_socket_ip, pieces.take(k as int), x)
                    ==> rightmost_outcome(*parse_ip, *parse_socket_ip, pieces, x),
            forall|t: &str| #[trigger] parse_ip.requires((t,)),
            forall|t: &str| #[trigger] parse_socket_ip.requires((t,)),
        decreases k,
    {
        let j = k - 1;
        let (a, b) = trim_bounds(&chars, starts[j], ends[j]);
        let entry = v.substring_char(a, b);
        let found = parse_entry(entry, parse_ip, parse_socket_ip);
        proof {
            let taken = pieces.take(k as int);
            assert(taken.drop_last() =~= pieces.take(j as int));
            assert(taken.last() == pieces[j as int]);
            assert(entry@ == trim(pieces[j as int]));
        }
        if found.is_some() {
            proof {
                assert(rightmost_outcome(*parse_ip, *parse_socket_ip, pieces.take(k as int), found));
                assert(rightmost_outcome(*parse_ip, *parse_socket_ip, pieces, found));
                assert(text_of(value) == Some(s));
            }
            return found;
        }
        proof {
            assert forall|x: Option<IpAddress>|
                #[trigger] rightmost_outcome(*parse_ip, *parse_socket_ip, pieces.take(j as int), x)
                    implies rightmost_outcome(*parse_ip, *parse_socket_ip, pieces, x) by {
                assert(rightmost_outcome(*parse_ip, *parse_socket_ip, pieces.take(k as int), x));
            }
        }
        k = j;
    }
    proof {
        assert(pieces.take(0) =~= Seq::<Seq<char>>::empty());
        assert(rightmost_outcome(*parse_ip, *parse_socket_ip, pieces.take(0), None));
    }
    None
}

/// The client's address. The `X-Forwarded-For` value is believed only when
/// the TCP peer is a trusted proxy and the value holds a valid entry;
/// otherwise the peer itself, or `0.0.0.0` when no peer is known.
pub fn resolve<P: Fn(&str) -> Option<IpAddress>, Q: Fn(&str) -> Option<IpAddress>>(
    peer: Option<IpAddress>,
    forwarded: Option<&str>,
    parse_ip: &P,
    parse_socket_ip: &Q,
) -> (r: IpAddress)
    requires
        forall|t: &str| #[trigger] parse_ip.requires((t,)),
        forall|t: &str| #[trigger] parse_socket_ip.requires((t,)),
    ensures
        peer is None ==> r == unspecified(),
        peer matches Some(p) ==> (!trusted_proxy(p) ==> r == p),
        peer matches Some(p) ==> (trusted_proxy(p) ==> {
            ||| forwarded_outcome(*parse_ip, *parse_socket_ip, text_of(forwarded), Some(r))
            ||| r == p && forwarded_outcome(
                *parse_ip,
                *parse_socket_ip,
                text_of(forwarded),
                None,
            )
        }),
{
    match peer {
        None => unknown_address(),
        Some(p) => {
            if is_trusted_proxy(p) {
                match forwarded_for(forwarded, parse_ip, parse_socket_ip) {
                    Some(ip) => ip,
                    None => p,
                }
            } else {
                p
            }
        },
    }
}

/// A parser gives one answer per text.
pub open spec fn deterministic<P: Fn(&str) -> Option<IpAddress>>(parse: P) -> bool {
    forall|t1: &str, t2: &str, r1: Option<IpAddress>, r2: Option<IpAddress>|
        #![trigger parse.ensures((t1,), r1), parse.ensures((t2,), r2)]
        t1@ == t2@ && parse.ensures((t1,), r1) && parse.ensures((t2,), r2) ==> r1 == r2
}

proof fn lemma_last_piece(forged: Seq<char>, appended: Seq<char>)
    requires
        !appended.contains(','),
    ensures
        split_commas(forged + seq![','] + appended).len() >= 1,
        split_commas(forged + seq![','] + appended).last() == appended,
    decreases appended.len(),
{
    let s = forged + seq![','] + appended;
    lemma_split_commas_nonempty(s);
    if appended.len() == 0 {
        assert(s.last() == ',');
        lemma_split_commas_nonempty(s.drop_last());
    } else {
        let shorter = appended.drop_last();
        assert(!shorter.contains(',')) by {
            if shorter.contains(',') {
                let k = choose|k: int| 0 <= k < shorter.len() && shorter[k] == ',';
                assert(appended[k] == ',');
            }
        }
        lemma_last_piece(forged, shorter);
        assert(s.drop_last() =~= forged + seq![','] + shorter);
        assert(s.last() == appended.last());
        assert(appended[appended.len() - 1] != ',');
        assert(shorter.push(appended.last()) =~= appended);
    }
}

/// A client can write anything to the left of the entry our proxy appends,
/// but cannot change the outcome: when the appended entry is a valid address
/// (and the parser answers consistently), that address is the result.
pub proof fn appended_entry_wins<P: Fn(&str) -> Option<IpAddress>, Q: Fn(&str) -> Option<IpAddress>>(
    parse_ip: P,
    parse_socket_ip: Q,
    forged: Seq<char>,
    appended: Seq<char>,
    ip: IpAddress,
    r: Option<IpAddress>,
)
    requires
        deterministic(parse_ip),
        !appended.contains(','),
        parses_to(parse_ip, trim(appended), Some(ip)),
        rightmost_outcome(parse_ip, parse_socket_ip, split_commas(forged + seq![','] + appended), r),
    ensures
        r == Some(ip),
{
    lemma_last_piece(forged, appended);
    let pieces = split_commas(forged + seq![','] + appended);
    let e = trim(appended);
    let t0 = choose|t: &str| t@ == e && #[trigger] parse_ip.ensures((t,), Some(ip));
    if parses_to(parse_ip, e, None) {
        let t1 = choose|t: &str| t@ == e && #[trigger] parse_ip.ensures((t,), None::<IpAddress>);
        assert(parse_ip.ensures((t0,), Some(ip)) && parse_ip.ensures((t1,), None::<IpAddress>));
        assert(false);
    }
    assert(!entry_outcome(parse_ip, parse_socket_ip, e, None));
    assert(r is Some && entry_outcome(parse_ip, parse_socket_ip, e, r));
    let t2 = choose|t: &str| t@ == e && #[trigger] parse_ip.ensures((t,), r);
    assert(parse_ip.ensures((t0,), Some(ip)) && parse_ip.ensures((t2,), r));
}

} // verus!
