use vstd::prelude::*;

use crate::transfer::checksum::push_char;

verus! {

/// An IP address: four octets, or the 128 bits of an IPv6 address.
#[derive(Debug, Clone, Copy, PartialEq, Eq, Structural)]
pub enum IpAddress {
    V4(u8, u8, u8, u8),
    V6(u128),
}

/// An IP address and a port.
#[derive(Debug, Clone, Copy, PartialEq, Eq, Structural)]
pub struct PeerAddress {
    pub ip: IpAddress,
    pub port: u16,
}

/// Digit character for a value below 16 (lower case past 9).
pub open spec fn digit_char(d: nat) -> char {
    if d < 10 {
        (48 + d) as char
    } else {
        (87 + d) as char
    }
}

/// The digits of `n` in base `base`, without leading zeros ("0" for zero).
pub open spec fn number_text(n: nat, base: nat) -> Seq<char>
    decreases n,
{
    if base < 2 || n < base {
        seq![digit_char(n)]
    } else {
        proof {
            assert(n / base < n) by (nonlinear_arith)
                requires
                    base >= 2,
                    n >= base,
            ;
        }
        number_text(n / base, base).push(digit_char(n % base))
    }
}

/// Dotted decimal text of four octets.
pub open spec fn ipv4_text(a: u8, b: u8, c: u8, d: u8) -> Seq<char> {
    number_text(a as nat, 10) + seq!['.'] + number_text(b as nat, 10) + seq!['.'] + number_text(
        c as nat,
        10,
    ) + seq!['.'] + number_text(d as nat, 10)
}

/// The `i`-th 16-bit group of an IPv6 address, most significant first.
pub open spec fn segment(x: u128, i: nat) -> u16 {
    ((x >> ((112 - 16 * i) as u128)) & 0xffff) as u16
}

/// Groups `from..to` in hex, separated by colons.
pub open spec fn groups_text(x: u128, from: nat, to: nat) -> Seq<char>
    decreases to - from,
{
    if from >= to {
        Seq::empty()
    } else if from + 1 == to {
        number_text(segment(x, from) as nat, 16)
    } else {
        number_text(segment(x, from) as nat, 16) + seq![':'] + groups_text(x, from + 1, to)
    }
}

/// The longest run of zero groups at or after `i` (the first of equal
/// length wins), given the run in progress and the best run so far, as
/// (start, length).
pub open spec fn zero_run(x: u128, i: nat, cur: (nat, nat), best: (nat, nat)) -> (nat, nat)
    decreases 8 - i,
{
    if i >= 8 {
        best
    } else if segment(x, i) == 0 {
        let c = if cur.1 == 0 { (i, 1nat) } else { (cur.0, cur.1 + 1) };
        zero_run(x, i + 1, c, if c.1 > best.1 { c } else { best })
    } else {
        zero_run(x, i + 1, (0, 0), best)
    }
}

/// Whether the address is an IPv4 address mapped into IPv6 (`::ffff:a.b.c.d`).
pub open spec fn is_ipv4_mapped(x: u128) -> bool {
    x >> 32 == 0xffff
}

/// The text of an IPv6 address: the mapped IPv4 form, or the hex groups
/// with the longest run of two or more zero groups written as `::`.
pub open spec fn ipv6_text(x: u128) -> Seq<char> {
    if is_ipv4_mapped(x) {
        "::ffff:"@ + ipv4_text(
            ((x >> 24) & 0xff) as u8,
            ((x >> 16) & 0xff) as u8,
            ((x >> 8) & 0xff) as u8,
            (x & 0xff) as u8,
        )
    } else {
        let run = zero_run(x, 0, (0, 0), (0, 0));
        if run.1 > 1 {
            groups_text(x, 0, run.0) + "::"@ + groups_text(x, run.0 + run.1, 8)
        } else {
            groups_text(x, 0, 8)
        }
    }
}

/// The text of an address: `a.b.c.d:port`, or `[v6]:port`.
pub open spec fn address_text(addr: PeerAddress) -> Seq<char> {
    match addr.ip {
        IpAddress::V4(a, b, c, d) => ipv4_text(a, b, c, d) + seq![':'] + number_text(
            addr.port as nat,
            10,
        ),
        IpAddress::V6(x) => seq!['['] + ipv6_text(x) + "]:"@ + number_text(addr.port as nat, 10),
    }
}

fn push_digit(s: &mut String, d: u32)
    requires
        d < 16,
    ensures
        final(s)@ == old(s)@.push(digit_char(d as nat)),
{
    let c: char = if d < 10 {
        ((48 + d) as u8) as char
    } else {
        ((87 + d) as u8) as char
    };
    push_char(s, c);
}

/// Appends the digits of `n` in base `base` (10 or 16).
fn push_number(s: &mut String, n: u32, base: u32)
    requires
        base == 10 || base == 16,
    ensures
        final(s)@ == old(s)@ + number_text(n as nat, base as nat),
    decreases n,
{
    if n < base {
        push_digit(s, n);
    } else {
        push_number(s, n / base, base);
        push_digit(s, n % base);
    }
}

fn push_str(s: &mut String, t: &str)
    ensures
        final(s)@ == old(s)@ + t@,
{
    s.append(t);
}

fn push_ipv4(s: &mut String, a: u8, b: u8, c: u8, d: u8)
    ensures
        final(s)@ == old(s)@ + ipv4_text(a, b, c, d),
{
    push_number(s, a as u32, 10);
    push_char(s, '.');
    push_number(s, b as u32, 10);
    push_char(s, '.');
    push_number(s, c as u32, 10);
    push_char(s, '.');
    push_number(s, d as u32, 10);
}

fn segment_at(x: u128, i: u32) -> (g: u16)
    requires
        i < 8,
    ensures
        g == segment(x, i as nat),
{
    ((x >> (112 - 16 * i) as u128) & 0xffff) as u16
}

fn push_groups(s: &mut String, x: u128, from: u32, to: u32)
    requires
        to <= 8,
    ensures
        final(s)@ == old(s)@ + groups_text(x, from as nat, to as nat),
    decreases to - from,
{
    if from >= to {
    } else if from + 1 == to {
        push_number(s, segment_at(x, from) as u32, 16);
    } else {
        push_number(s, segment_at(x, from) as u32, 16);
        push_char(s, ':');
        push_groups(s, x, from + 1, to);
    }
}

fn find_zero_run(x: u128) -> (r: (u32, u32))
    ensures
        r.0 as nat == zero_run(x, 0, (0, 0), (0, 0)).0,
        r.1 as nat == zero_run(x, 0, (0, 0), (0, 0)).1,
        r.0 + r.1 <= 8,
{
    let mut i: u32 = 0;
    let mut cur: (u32, u32) = (0, 0);
    let mut best: (u32, u32) = (0, 0);
    while i < 8
        invariant
            i <= 8,
            cur.0 + cur.1 <= i,
            best.0 + best.1 <= i,
            zero_run(x, i as nat, (cur.0 as nat, cur.1 as nat), (best.0 as nat, best.1 as nat))
                == zero_run(x, 0, (0, 0), (0, 0)),
        decreases 8 - i,
    {
        if segment_at(x, i) == 0 {
            if cur.1 == 0 {
                cur = (i, 1);
            } else {
                cur = (cur.0, cur.1 + 1);
            }
            if cur.1 > best.1 {
                best = cur;
            }
        } else {
            cur = (0, 0);
        }
        i = i + 1;
    }
    best
}

fn push_ipv6(s: &mut String, x: u128)
    ensures
        final(s)@ == old(s)@ + ipv6_text(x),
{
    if x >> 32 == 0xffff {
        push_str(s, "::ffff:");
        push_ipv4(s, ((x >> 24) & 0xff) as u8, ((x >> 16) & 0xff) as u8, ((x >> 8) & 0xff) as u8, (x & 0xff) as u8);
    } else {
        let (start, len) = find_zero_run(x);
        if len > 1 {
            push_groups(s, x, 0, start);
            push_str(s, "::");
            push_groups(s, x, start + len, 8);
        } else {
            push_groups(s, x, 0, 8);
        }
    }
}

impl PeerAddress {
    /// The address as text: `a.b.c.d:port` or `[v6]:port`, the way the
    /// standard library displays a socket address without a scope id.
    pub fn to_text(&self) -> (s: String)
        ensures
            s@ == address_text(*self),
    {
        let mut s = String::new();
        match self.ip {
            IpAddress::V4(a, b, c, d) => {
                push_ipv4(&mut s, a, b, c, d);
                push_char(&mut s, ':');
            },
            IpAddress::V6(x) => {
                push_char(&mut s, '[');
                push_ipv6(&mut s, x);
                push_str(&mut s, "]:");
            },
        }
        push_number(&mut s, self.port as u32, 10);
        s
    }
}

} // verus!
