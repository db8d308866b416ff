//! Addresses.
use vstd::prelude::*;

use crate::error::{Error, ErrorKind};
use crate::text::{digit, digits};

verus! {

/// An IPv4 address, by its four numbers.
#[derive(Clone, Copy, PartialEq, Eq, Structural, Debug)]
pub struct Ipv4Addr {
    pub a: u8,
    pub b: u8,
    pub c: u8,
    pub d: u8,
}

impl Ipv4Addr {
    /// The address with these four numbers.
    pub fn new(a: u8, b: u8, c: u8, d: u8) -> (ip: Ipv4Addr)
        ensures
            ip == (Ipv4Addr { a, b, c, d }),
    {
        Ipv4Addr { a, b, c, d }
    }
}

/// An IPv6 address, by its two halves. There is nothing to be done with one.
#[derive(Clone, Copy, PartialEq, Eq, Structural, Debug)]
pub struct Ipv6Addr {
    pub high: u64,
    pub low: u64,
}

/// An IPv4 address and a port.
#[derive(Clone, Copy, PartialEq, Eq, Structural, Debug)]
pub struct SocketAddrV4 {
    pub ip: Ipv4Addr,
    pub port: u16,
}

/// An IPv6 address and a port.
#[derive(Clone, Copy, PartialEq, Eq, Structural, Debug)]
pub struct SocketAddrV6 {
    pub ip: Ipv6Addr,
    pub port: u16,
}

/// An address of either kind and a port.
#[derive(Clone, Copy, PartialEq, Eq, Structural, Debug)]
pub enum SocketAddr {
    /// IPv4.
    V4(SocketAddrV4),
    /// IPv6.
    V6(SocketAddrV6),
}

/// An address and a port as the library keeps them: byte by byte in the order of the network,
/// which for a port is the high byte first.
#[derive(Clone, Copy, PartialEq, Eq, Structural, Debug)]
pub struct RawAddr {
    pub ip: Ipv4Addr,
    pub high: u8,
    pub low: u8,
}

/// An address and a port as the library keeps them.
pub open spec fn raw_of(a: SocketAddrV4) -> RawAddr {
    RawAddr { ip: a.ip, high: (a.port / 256) as u8, low: (a.port % 256) as u8 }
}

/// What the library means by an address and a port.
pub open spec fn v4_of(raw: RawAddr) -> SocketAddrV4 {
    SocketAddrV4 { ip: raw.ip, port: (raw.high * 256 + raw.low) as u16 }
}

/// Writes an address and a port as the library keeps them.
pub fn v4_to_raw(a: &SocketAddrV4) -> (raw: RawAddr)
    ensures
        raw == raw_of(*a),
{
    RawAddr { ip: a.ip, high: (a.port / 256) as u8, low: (a.port % 256) as u8 }
}

/// Reads an address and a port.
pub fn raw_to_v4(raw: RawAddr) -> (a: SocketAddrV4)
    ensures
        a == v4_of(raw),
{
    SocketAddrV4 { ip: raw.ip, port: (raw.high as u16) * 256 + raw.low as u16 }
}

/// What the library is told of an address and a port is read back from it as the same, and
/// the other way round.
pub proof fn raw_addresses_round_trip(a: SocketAddrV4, raw: RawAddr)
    ensures
        v4_of(raw_of(a)) == a,
        raw_of(v4_of(raw)) == raw,
{
}

/// What is said where IPv6 is asked for.
pub open spec fn v6_unsupported() -> Error {
    Error::Message(
        ErrorKind::Unsupported,
        "IPv6 is not supported by the AROS bsdsocket bridge yet",
    )
}

/// Refuses IPv6.
pub fn unsupported_v6<T>() -> (r: Result<T, Error>)
    ensures
        r == Err::<T, Error>(v6_unsupported()),
{
    Err(
        Error::Message(
            ErrorKind::Unsupported,
            "IPv6 is not supported by the AROS bsdsocket bridge yet",
        ),
    )
}

/// Writes an address and a port as the library keeps them, where it can.
pub fn addr_to_raw(addr: &SocketAddr) -> (r: Result<RawAddr, Error>)
    ensures
        r == match *addr {
            SocketAddr::V4(a) => Ok::<RawAddr, Error>(raw_of(a)),
            SocketAddr::V6(_) => Err(v6_unsupported()),
        },
{
    match addr {
        SocketAddr::V4(a) => Ok(v4_to_raw(a)),
        SocketAddr::V6(_) => unsupported_v6(),
    }
}

// ------------------------------------------------------------------------------------
// Addresses in words
// ------------------------------------------------------------------------------------

/// An address as it is written: four numbers in decimal, without leading zeros, with dots
/// between them.
pub open spec fn dotted(ip: Ipv4Addr) -> Seq<char> {
    digits(ip.a as nat) + seq!['.'] + digits(ip.b as nat) + seq!['.'] + digits(ip.c as nat)
        + seq!['.'] + digits(ip.d as nat)
}

/// Whether a character is a decimal digit.
pub open spec fn is_digit(c: char) -> bool {
    '0' <= c <= '9'
}

/// The number that decimal digits stand for.
pub open spec fn value(s: Seq<char>) -> nat
    decreases s.len(),
{
    if s.len() == 0 {
        0
    } else {
        value(s.drop_last()) * 10 + (s.last() as nat - 0x30) as nat
    }
}

proof fn digits_are_digits(n: nat)
    ensures
        digits(n).len() > 0,
        forall|i: int| 0 <= i < digits(n).len() ==> is_digit(#[trigger] digits(n)[i]),
        value(digits(n)) == n,
        n > 0 ==> digits(n)[0] != '0',
        n == 0 ==> digits(n) == seq!['0'],
        n < 1000 ==> digits(n).len() <= 3,
        n < 100 ==> digits(n).len() <= 2,
        n < 10 ==> digits(n).len() == 1,
    decreases n,
{
    reveal_with_fuel(value, 2);
    if n >= 10 {
        digits_are_digits(n / 10);
        assert(digits(n).drop_last() == digits(n / 10));
        assert(digits(n)[0] == digits(n / 10)[0]);
        assert forall|i: int| 0 <= i < digits(n).len() implies is_digit(#[trigger] digits(n)[i]) by {
            if i < digits(n / 10).len() {
                assert(digits(n)[i] == digits(n / 10)[i]);
            }
        }
    } else {
        assert(seq![digit(n)].drop_last() == Seq::<char>::empty());
    }
}

proof fn digits_of_value(s: Seq<char>)
    requires
        s.len() > 0,
        forall|i: int| 0 <= i < s.len() ==> is_digit(#[trigger] s[i]),
        s.len() > 1 ==> s[0] != '0',
    ensures
        digits(value(s)) == s,
        s.len() > 1 ==> value(s) >= 10,
        s[0] != '0' ==> value(s) > 0,
    decreases s.len(),
{
    reveal_with_fuel(value, 2);
    assert(is_digit(s.last()));
    if s.len() == 1 {
        assert(digits(value(s)) == s);
    } else {
        let t = s.drop_last();
        assert(t[0] == s[0]);
        assert(is_digit(t[0]));
        digits_of_value(t);
        assert(digits(value(s)) == s);
    }
}

/// The end of the digits that stand at `at`.
pub open spec fn digits_end(s: Seq<char>, at: int) -> int
    decreases s.len() - at,
{
    if at < s.len() && at >= 0 && is_digit(s[at]) {
        digits_end(s, at + 1)
    } else {
        at
    }
}

proof fn digits_end_is(s: Seq<char>, at: int, end: int)
    requires
        0 <= at <= end <= s.len(),
        forall|i: int| at <= i < end ==> is_digit(#[trigger] s[i]),
        end < s.len() ==> !is_digit(s[end]),
    ensures
        digits_end(s, at) == end,
    decreases end - at,
{
    if at < end {
        digits_end_is(s, at + 1, end);
    }
}

/// Whether the number `n` is written at `at` and ends at `end`.
pub open spec fn number_at(s: Seq<char>, at: int, end: int, n: u8) -> bool {
    &&& 0 <= at <= end <= s.len()
    &&& s.subrange(at, end) == digits(n as nat)
    &&& end < s.len() ==> !is_digit(s[end])
}

proof fn number_ends(s: Seq<char>, at: int, end: int, n: u8)
    requires
        number_at(s, at, end, n),
    ensures
        end == digits_end(s, at),
        end - at <= 3,
        at < end,
        end - at > 1 ==> s[at] != '0',
        n == value(s.subrange(at, end)),
{
    digits_are_digits(n as nat);
    assert forall|i: int| at <= i < end implies is_digit(#[trigger] s[i]) by {
        assert(s[i] == s.subrange(at, end)[i - at]);
    }
    digits_end_is(s, at, end);
    assert(s.subrange(at, end)[0] == s[at]);
}

/// Reads the number that stands at `at`, and where it ends.
fn read_number(s: &Vec<char>, at: usize) -> (r: Option<(u8, usize)>)
    requires
        at <= s@.len(),
    ensures
        match r {
            Some((n, end)) => number_at(s@, at as int, end as int, n),
            None => forall|n: u8, end: int| !number_at(s@, at as int, end, n),
        },
{
    let mut end: usize = at;
    let mut n: u32 = 0;
    while end < s.len() && end - at < 3 && '0' <= s[end] && s[end] <= '9'
        invariant
            at <= end <= s@.len(),
            end - at <= 3,
            forall|i: int| at <= i < end ==> is_digit(#[trigger] s@[i]),
            n == value(s@.subrange(at as int, end as int)),
            end - at == 0 ==> n == 0,
            end - at == 1 ==> n < 10,
            end - at == 2 ==> n < 100,
            end - at == 3 ==> n < 1000,
        decreases s@.len() - end,
    {
        let d: u32 = s[end] as u32 - 0x30;
        n = n * 10 + d;
        proof {
            let grown = s@.subrange(at as int, end + 1);
            assert(grown.drop_last() == s@.subrange(at as int, end as int));
        }
        end = end + 1;
    }
    let ends: bool = end == s.len() || s[end] < '0' || s[end] > '9';
    proof {
        if ends {
            digits_end_is(s@, at as int, end as int);
        }
        assert forall|m: u8, e: int| number_at(s@, at as int, e, m) implies ends && e == end && m
            == n && end > at && (end - at > 1 ==> s@[at as int] != '0') by {
            number_ends(s@, at as int, e, m);
            if !ends {
                digits_end_past(s@, at as int, end as int);
            }
        }
    }
    if !ends || end == at || (end - at > 1 && s[at] == '0') || n > 255 {
        return None;
    }
    proof {
        let run = s@.subrange(at as int, end as int);
        assert forall|i: int| 0 <= i < run.len() implies is_digit(#[trigger] run[i]) by {
            assert(is_digit(s@[at + i]));
        }
        assert(run[0] == s@[at as int]);
        digits_of_value(run);
    }
    Some((n as u8, end))
}

proof fn digits_end_past(s: Seq<char>, at: int, to: int)
    requires
        0 <= at <= to < s.len(),
        forall|i: int| at <= i <= to ==> is_digit(#[trigger] s[i]),
    ensures
        digits_end(s, at) > to,
    decreases to - at,
{
    assert(is_digit(s[at]));
    if at < to {
        digits_end_past(s, at + 1, to);
    } else {
        digits_end_grows(s, at + 1);
    }
}

proof fn digits_end_grows(s: Seq<char>, at: int)
    ensures
        digits_end(s, at) >= at,
    decreases s.len() - at,
{
    if at < s.len() && at >= 0 && is_digit(s[at]) {
        digits_end_grows(s, at + 1);
    }
}

/// Whether the number `n` and a dot are written at `at`, the dot at `end`.
spec fn part_at(s: Seq<char>, at: int, end: int, n: u8) -> bool {
    number_at(s, at, end, n) && end < s.len() && s[end] == '.'
}

proof fn one_number(s: Seq<char>, at: int, end: int, n: u8, other_end: int, other: u8)
    requires
        number_at(s, at, end, n),
        number_at(s, at, other_end, other),
    ensures
        end == other_end,
        n == other,
{
    number_ends(s, at, end, n);
    number_ends(s, at, other_end, other);
}

proof fn dotted_parts(ip: Ipv4Addr)
    ensures
        ({
            let s = dotted(ip);
            let i = digits(ip.a as nat).len() as int;
            let j = i + 1 + digits(ip.b as nat).len();
            let k = j + 1 + digits(ip.c as nat).len();
            &&& part_at(s, 0, i, ip.a)
            &&& part_at(s, i + 1, j, ip.b)
            &&& part_at(s, j + 1, k, ip.c)
            &&& number_at(s, k + 1, s.len() as int, ip.d)
        }),
{
    let s = dotted(ip);
    let i = digits(ip.a as nat).len() as int;
    let j = i + 1 + digits(ip.b as nat).len();
    let k = j + 1 + digits(ip.c as nat).len();
    assert(s.subrange(0, i) == digits(ip.a as nat));
    assert(s.subrange(i + 1, j) == digits(ip.b as nat));
    assert(s.subrange(j + 1, k) == digits(ip.c as nat));
    assert(s.subrange(k + 1, s.len() as int) == digits(ip.d as nat));
    assert(s[i] == '.' && s[j] == '.' && s[k] == '.');
}

/// An address is written in one way only, and different addresses in different ways.
pub proof fn dotted_is_unique(x: Ipv4Addr, y: Ipv4Addr)
    ensures
        dotted(x) == dotted(y) ==> x == y,
{
    if dotted(x) == dotted(y) {
        let s = dotted(x);
        dotted_parts(x);
        dotted_parts(y);
        let (i, i2) = (digits(x.a as nat).len() as int, digits(y.a as nat).len() as int);
        one_number(s, 0, i, x.a, i2, y.a);
        let (j, j2) = (i + 1 + digits(x.b as nat).len(), i + 1 + digits(y.b as nat).len());
        one_number(s, i + 1, j, x.b, j2, y.b);
        let (k, k2) = (j + 1 + digits(x.c as nat).len(), j + 1 + digits(y.c as nat).len());
        one_number(s, j + 1, k, x.c, k2, y.c);
        one_number(s, k + 1, s.len() as int, x.d, s.len() as int, y.d);
    }
}

/// Reads the number and the dot that stand at `at`, and where the dot is.
fn read_part(s: &Vec<char>, at: usize) -> (r: Option<(u8, usize)>)
    requires
        at <= s@.len(),
    ensures
        match r {
            Some((n, end)) => part_at(s@, at as int, end as int, n),
            None => forall|n: u8, end: int| !part_at(s@, at as int, end, n),
        },
{
    match read_number(s, at) {
        Some((n, end)) => {
            proof {
                assert forall|m: u8, e: int| number_at(s@, at as int, e, m) implies e == end by {
                    one_number(s@, at as int, end as int, n, e, m);
                }
            }
            if end < s.len() && s[end] == '.' {
                Some((n, end))
            } else {
                None
            }
        },
        None => None,
    }
}

proof fn first_part(ip: Ipv4Addr, i: int, a: u8)
    requires
        part_at(dotted(ip), 0, i, a),
    ensures
        a == ip.a,
        part_at(dotted(ip), i + 1, i + 1 + digits(ip.b as nat).len(), ip.b),
{
    dotted_parts(ip);
    one_number(dotted(ip), 0, i, a, digits(ip.a as nat).len() as int, ip.a);
}

proof fn second_part(ip: Ipv4Addr, i: int, a: u8, j: int, b: u8)
    requires
        part_at(dotted(ip), 0, i, a),
        part_at(dotted(ip), i + 1, j, b),
    ensures
        a == ip.a,
        b == ip.b,
        part_at(dotted(ip), j + 1, j + 1 + digits(ip.c as nat).len(), ip.c),
{
    dotted_parts(ip);
    one_number(dotted(ip), 0, i, a, digits(ip.a as nat).len() as int, ip.a);
    one_number(dotted(ip), i + 1, j, b, i + 1 + digits(ip.b as nat).len(), ip.b);
}

proof fn third_part(ip: Ipv4Addr, i: int, a: u8, j: int, b: u8, k: int, c: u8)
    requires
        part_at(dotted(ip), 0, i, a),
        part_at(dotted(ip), i + 1, j, b),
        part_at(dotted(ip), j + 1, k, c),
    ensures
        number_at(dotted(ip), k + 1, dotted(ip).len() as int, ip.d),
{
    dotted_parts(ip);
    one_number(dotted(ip), 0, i, a, digits(ip.a as nat).len() as int, ip.a);
    one_number(dotted(ip), i + 1, j, b, i + 1 + digits(ip.b as nat).len(), ip.b);
    one_number(dotted(ip), j + 1, k, c, j + 1 + digits(ip.c as nat).len(), ip.c);
}

/// Reads four numbers with dots between them.
fn read_dotted(s: &Vec<char>) -> (r: Option<Ipv4Addr>)
    ensures
        match r {
            Some(ip) => s@ == dotted(ip),
            None => forall|ip: Ipv4Addr| s@ != dotted(ip),
        },
{
    let len: usize = s.len();
    let (a, i): (u8, usize) = match read_part(s, 0) {
        Some(part) => part,
        None => {
            assert forall|ip: Ipv4Addr| s@ != dotted(ip) by {
                dotted_parts(ip);
            }
            return None;
        },
    };
    let (b, j): (u8, usize) = match read_part(s, i + 1) {
        Some(part) => part,
        None => {
            assert forall|ip: Ipv4Addr| s@ != dotted(ip) by {
                if s@ == dotted(ip) {
                    first_part(ip, i as int, a);
                }
            }
            return None;
        },
    };
    let (c, k): (u8, usize) = match read_part(s, j + 1) {
        Some(part) => part,
        None => {
            assert forall|ip: Ipv4Addr| s@ != dotted(ip) by {
                if s@ == dotted(ip) {
                    second_part(ip, i as int, a, j as int, b);
                }
            }
            return None;
        },
    };
    match read_number(s, k + 1) {
        Some((d, end)) => {
            if end < len {
                assert forall|ip: Ipv4Addr| s@ != dotted(ip) by {
                    if s@ == dotted(ip) {
                        third_part(ip, i as int, a, j as int, b, k as int, c);
                        one_number(s@, k + 1, end as int, d, s@.len() as int, ip.d);
                    }
                }
                return None;
            }
            let ip: Ipv4Addr = Ipv4Addr { a, b, c, d };
            assert(s@ == dotted(ip)) by {
                let parts = s@.subrange(0, i as int) + seq!['.'] + s@.subrange(i + 1, j as int)
                    + seq!['.'] + s@.subrange(j + 1, k as int) + seq!['.'] + s@.subrange(
                    k + 1,
                    end as int,
                );
                assert(s@ == parts);
            }
            Some(ip)
        },
        None => {
            assert forall|ip: Ipv4Addr| s@ != dotted(ip) by {
                if s@ == dotted(ip) {
                    third_part(ip, i as int, a, j as int, b, k as int, c);
                }
            }
            None
        },
    }
}

/// Reads an address as it is written. Nothing but an address is taken for one.
pub fn parse_ipv4(host: &str) -> (r: Option<Ipv4Addr>)
    ensures
        match r {
            Some(ip) => host@ == dotted(ip),
            None => forall|ip: Ipv4Addr| host@ != dotted(ip),
        },
{
    let mut s: Vec<char> = Vec::new();
    for c in it: host.chars()
        invariant
            it.seq() == host@,
            s@ == host@.take(it.index()),
    {
        s.push(c);
        assert(s@ == host@.take(it.index() + 1));
    }
    assert(s@ == host@);
    read_dotted(&s)
}

/// An address and a port go to the library byte by byte, the high byte of the port first, and
/// come back from it the same way; IPv6 is refused.
pub proof fn addresses_go_over_byte_by_byte(
    a: SocketAddrV4,
    raw: RawAddr,
    addr: SocketAddr,
    r: Result<RawAddr, Error>,
    back: SocketAddrV4,
)
    requires
        call_ensures(v4_to_raw, (&a,), raw),
        call_ensures(addr_to_raw, (&addr,), r),
        call_ensures(raw_to_v4, (raw,), back),
    ensures
        raw.ip == a.ip,
        raw.high as int * 256 + raw.low as int == a.port,
        back == a,
        r is Ok <==> addr is V4,
        addr matches SocketAddr::V4(v) ==> r->Ok_0.ip == v.ip && r->Ok_0.high as int * 256
            + r->Ok_0.low as int == v.port,
        r matches Err(e) ==> e == Error::Message(
            ErrorKind::Unsupported,
            "IPv6 is not supported by the AROS bsdsocket bridge yet",
        ),
{
}

/// What the library answers with is read as the address and the port that its bytes spell.
pub proof fn addresses_are_read_byte_by_byte(raw: RawAddr, a: SocketAddrV4)
    requires
        call_ensures(raw_to_v4, (raw,), a),
    ensures
        a.ip == raw.ip,
        a.port as int == raw.high as int * 256 + raw.low as int,
{
}

/// A host is an address exactly where it is four numbers below 256 in decimal with dots between
/// them, and the address is those four numbers in their order.
pub proof fn only_what_is_written_so_is_an_address(host: &str, r: Option<Ipv4Addr>, ip: Ipv4Addr)
    requires
        call_ensures(parse_ipv4, (host,), r),
    ensures
        r == Some(ip) <==> host@ == digits(ip.a as nat) + seq!['.'] + digits(ip.b as nat) + seq![
            '.',
        ] + digits(ip.c as nat) + seq!['.'] + digits(ip.d as nat),
{
    if host@ == dotted(ip) {
        dotted_is_unique(ip, r->0);
    }
}

} // verus!
