//! Rendering of addresses as text.

use vstd::prelude::*;
use vstd::string::*;
use crate::address::{Ipv4Addr, SocketAddrV4};

verus! {

/// The character of a decimal digit.
pub open spec fn digit(d: nat) -> char {
    if d == 0 {
        '0'
    } else if d == 1 {
        '1'
    } else if d == 2 {
        '2'
    } else if d == 3 {
        '3'
    } else if d == 4 {
        '4'
    } else if d == 5 {
        '5'
    } else if d == 6 {
        '6'
    } else if d == 7 {
        '7'
    } else if d == 8 {
        '8'
    } else {
        '9'
    }
}

/// A number in decimal notation, without leading zeros.
pub open spec fn decimal(n: nat) -> Seq<char>
    decreases n,
{
    if n < 10 {
        seq![digit(n)]
    } else {
        decimal(n / 10).push(digit(n % 10))
    }
}

/// An address in dotted decimal notation.
pub open spec fn ip_text(ip: Ipv4Addr) -> Seq<char> {
    decimal(ip.a as nat) + seq!['.'] + decimal(ip.b as nat) + seq!['.'] + decimal(ip.c as nat)
        + seq!['.'] + decimal(ip.d as nat)
}

/// A socket address: the address, a colon, the port.
pub open spec fn socket_text(addr: SocketAddrV4) -> Seq<char> {
    ip_text(addr.ip) + seq![':'] + decimal(addr.port as nat)
}

fn digit_str(d: u16) -> (s: &'static str)
    requires
        d < 10,
    ensures
        s@ == seq![digit(d as nat)],
{
    proof {
        reveal_strlit("0");
        reveal_strlit("1");
        reveal_strlit("2");
        reveal_strlit("3");
        reveal_strlit("4");
        reveal_strlit("5");
        reveal_strlit("6");
        reveal_strlit("7");
        reveal_strlit("8");
        reveal_strlit("9");
    }
    let s = if d == 0 {
        "0"
    } else if d == 1 {
        "1"
    } else if d == 2 {
        "2"
    } else if d == 3 {
        "3"
    } else if d == 4 {
        "4"
    } else if d == 5 {
        "5"
    } else if d == 6 {
        "6"
    } else if d == 7 {
        "7"
    } else if d == 8 {
        "8"
    } else {
        "9"
    };
    assert(s@ =~= seq![digit(d as nat)]);
    s
}

/// Appends `n` in decimal notation to `out`.
pub fn push_decimal(out: &mut String, n: u16)
    ensures
        final(out)@ == old(out)@ + decimal(n as nat),
    decreases n,
{
    if n >= 10 {
        push_decimal(out, n / 10);
    }
    out.append(digit_str(n % 10));
    assert(final(out)@ =~= old(out)@ + decimal(n as nat));
}

/// Appends `ip` in dotted decimal notation to `out`.
pub fn push_ip(out: &mut String, ip: Ipv4Addr)
    ensures
        final(out)@ == old(out)@ + ip_text(ip),
{
    proof {
        reveal_strlit(".");
    }
    push_decimal(out, ip.a as u16);
    out.append(".");
    push_decimal(out, ip.b as u16);
    out.append(".");
    push_decimal(out, ip.c as u16);
    out.append(".");
    push_decimal(out, ip.d as u16);
    assert(final(out)@ =~= old(out)@ + ip_text(ip));
}

/// Appends `addr` as address, colon and port to `out`.
pub fn push_socket(out: &mut String, addr: SocketAddrV4)
    ensures
        final(out)@ == old(out)@ + socket_text(addr),
{
    proof {
        reveal_strlit(":");
    }
    push_ip(out, addr.ip);
    out.append(":");
    push_decimal(out, addr.port);
    assert(final(out)@ =~= old(out)@ + socket_text(addr));
}

} // verus!
