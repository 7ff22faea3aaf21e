//! IPv4 address and CIDR parsing for the static addressing policy.
//!
//! The accepted grammar is the usual dotted-decimal form: four octets of
//! one to three decimal digits each, value at most 255, with no leading
//! zeros (`0` itself is allowed), separated by `.`; a CIDR adds `/` and a
//! prefix length of one or two digits, value at most 32, again with no
//! leading zeros. Nothing may precede or follow the address.

use vstd::prelude::*;

use crate::bytes::{digits_end, number_ok, number_val, parse_number};

verus! {

/// An IPv4 address as its four octets.
#[derive(Clone, Copy, Debug, PartialEq, Eq, Structural)]
pub struct Ipv4Address {
    pub o1: u8,
    pub o2: u8,
    pub o3: u8,
    pub o4: u8,
}

/// An IPv4 address together with a network prefix length (at most 32).
#[derive(Clone, Copy, Debug, PartialEq, Eq, Structural)]
pub struct Ipv4Cidr {
    pub address: Ipv4Address,
    pub prefix_len: u8,
}

impl Ipv4Cidr {
    /// A well-formed CIDR never carries a prefix length over 32.
    pub open spec fn wf(&self) -> bool {
        self.prefix_len <= 32
    }
}

/// Whether a well-formed octet (one to three digits, no leading zero,
/// value at most 255) starts at index `i` of `s`.
pub open spec fn octet_ok(s: Seq<u8>, i: int) -> bool {
    number_ok(s, i, 1, 3, false) && number_val(s, i) <= 255
}

/// The dotted quad starting at index `i` of `s`, with the index just past
/// it, or `None` where none starts there.
pub open spec fn parse_quad_at(s: Seq<u8>, i: int) -> Option<(Ipv4Address, int)> {
    if !octet_ok(s, i) {
        None
    } else {
        let j1 = digits_end(s, i);
        if !(j1 < s.len() && s[j1] == '.' as u8 && octet_ok(s, j1 + 1)) {
            None
        } else {
            let j2 = digits_end(s, j1 + 1);
            if !(j2 < s.len() && s[j2] == '.' as u8 && octet_ok(s, j2 + 1)) {
                None
            } else {
                let j3 = digits_end(s, j2 + 1);
                if !(j3 < s.len() && s[j3] == '.' as u8 && octet_ok(s, j3 + 1)) {
                    None
                } else {
                    let j4 = digits_end(s, j3 + 1);
                    Some(
                        (
                            Ipv4Address {
                                o1: number_val(s, i) as u8,
                                o2: number_val(s, j1 + 1) as u8,
                                o3: number_val(s, j2 + 1) as u8,
                                o4: number_val(s, j3 + 1) as u8,
                            },
                            j4,
                        ),
                    )
                }
            }
        }
    }
}

/// The address denoted by all of `s`, or `None` where `s` is not a
/// well-formed dotted-decimal IPv4 address.
pub open spec fn parse_ipv4_spec(s: Seq<u8>) -> Option<Ipv4Address> {
    match parse_quad_at(s, 0) {
        Some((addr, j)) => if j == s.len() {
            Some(addr)
        } else {
            None
        },
        None => None,
    }
}

/// The CIDR denoted by all of `s`, or `None` where `s` is not a
/// well-formed `address/prefix` form with prefix length at most 32.
pub open spec fn parse_cidr_spec(s: Seq<u8>) -> Option<Ipv4Cidr> {
    match parse_quad_at(s, 0) {
        Some((addr, j)) => {
            if j < s.len() && s[j] == '/' as u8 && number_ok(s, j + 1, 1, 2, false) && number_val(
                s,
                j + 1,
            ) <= 32 && digits_end(s, j + 1) == s.len() {
                Some(Ipv4Cidr { address: addr, prefix_len: number_val(s, j + 1) as u8 })
            } else {
                None
            }
        },
        None => None,
    }
}

/// Parse the dotted quad starting at `i`, returning it with the index
/// just past its last digit.
fn parse_quad(s: &[u8], i: usize) -> (r: Option<(Ipv4Address, usize)>)
    requires
        i <= s@.len(),
    ensures
        match r {
            Some((addr, j)) => {
                &&& parse_quad_at(s@, i as int) == Some((addr, j as int))
                &&& i <= j <= s@.len()
            },
            None => parse_quad_at(s@, i as int) is None,
        },
{
    let Some((o1, j1)) = parse_number(s, i, 1, 3, false, 255) else { return None };
    if j1 >= s.len() || s[j1] != '.' as u8 {
        return None;
    }
    let Some((o2, j2)) = parse_number(s, j1 + 1, 1, 3, false, 255) else { return None };
    if j2 >= s.len() || s[j2] != '.' as u8 {
        return None;
    }
    let Some((o3, j3)) = parse_number(s, j2 + 1, 1, 3, false, 255) else { return None };
    if j3 >= s.len() || s[j3] != '.' as u8 {
        return None;
    }
    let Some((o4, j4)) = parse_number(s, j3 + 1, 1, 3, false, 255) else { return None };
    Some((Ipv4Address { o1: o1 as u8, o2: o2 as u8, o3: o3 as u8, o4: o4 as u8 }, j4))
}

/// Parse all of `s` as a dotted-decimal IPv4 address.
pub fn parse_ipv4(s: &[u8]) -> (r: Option<Ipv4Address>)
    ensures
        r == parse_ipv4_spec(s@),
{
    match parse_quad(s, 0) {
        Some((addr, j)) => if j == s.len() {
            Some(addr)
        } else {
            None
        },
        None => None,
    }
}

/// Parse all of `s` as an `address/prefix` CIDR. A returned CIDR is
/// well-formed: its prefix length is at most 32.
pub fn parse_cidr(s: &[u8]) -> (r: Option<Ipv4Cidr>)
    ensures
        r == parse_cidr_spec(s@),
        r matches Some(c) ==> c.wf(),
{
    let Some((addr, j)) = parse_quad(s, 0) else { return None };
    if j >= s.len() || s[j] != '/' as u8 {
        return None;
    }
    let Some((p, k)) = parse_number(s, j + 1, 1, 2, false, 32) else { return None };
    if k != s.len() {
        return None;
    }
    Some(Ipv4Cidr { address: addr, prefix_len: p as u8 })
}

} // verus!
