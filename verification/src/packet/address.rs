//! Transport addresses as they appear inside address-bearing attributes:
//! an address family, a port, and the raw address octets.

use vstd::prelude::*;

use crate::error::DecodeError;

verus! {

/// The family byte of an address attribute value: `0x01` is IPv4,
/// `0x02` is IPv6.
#[derive(Debug, Clone, Copy, PartialEq, Eq, Structural)]
pub enum Family {
    Ipv4,
    Ipv6,
}

/// The wire code of an address family.
pub open spec fn family_code(f: Family) -> int {
    match f {
        Family::Ipv4 => 0x01,
        Family::Ipv6 => 0x02,
    }
}

/// The number of address octets the family demands: 4 for IPv4, 16 for
/// IPv6.
pub open spec fn family_addr_len(f: Family) -> int {
    match f {
        Family::Ipv4 => 4,
        Family::Ipv6 => 16,
    }
}

/// The family a numeric code denotes; every other code is `BadFamily`.
pub open spec fn family_from_code(n: int) -> Result<Family, DecodeError> {
    if n == 0x01 {
        Ok(Family::Ipv4)
    } else if n == 0x02 {
        Ok(Family::Ipv6)
    } else {
        Err(DecodeError::BadFamily)
    }
}

impl Family {
    /// The family a numeric code denotes.
    pub fn from_u32(n: u32) -> (r: Result<Self, DecodeError>)
        ensures
            r == family_from_code(n as int),
    {
        match n {
            0x01 => Ok(Family::Ipv4),
            0x02 => Ok(Family::Ipv6),
            _ => Err(DecodeError::BadFamily),
        }
    }

    /// The wire code of this family.
    pub fn to_u32(&self) -> (r: u32)
        ensures
            r as int == family_code(*self),
            1 <= r <= 2,
    {
        match *self {
            Family::Ipv4 => 0x01,
            Family::Ipv6 => 0x02,
        }
    }
}

/// Every family code maps back to the family it came from.
pub proof fn lemma_family_round_trip(f: Family)
    ensures
        family_from_code(family_code(f)) == Ok::<Family, DecodeError>(f),
{
}

/// Every code that decodes to a family encodes back to itself.
pub proof fn lemma_family_code_inverse(n: int)
    ensures
        family_from_code(n) matches Ok(f) ==> family_code(f) == n,
{
}

/// A transport address: family, port, and the raw address octets — 4 of
/// them for IPv4, 16 for IPv6.
#[derive(Debug, Clone, PartialEq)]
pub struct Address {
    pub family: Family,
    pub port: u16,
    pub ip: Vec<u8>,
}

/// The mathematical model of an address, with the octets as a sequence.
pub struct AddressV {
    pub family: Family,
    pub port: u16,
    pub ip: Seq<u8>,
}

impl View for Address {
    type V = AddressV;

    open spec fn view(&self) -> AddressV {
        AddressV { family: self.family, port: self.port, ip: self.ip@ }
    }
}

/// An address whose octet count matches its family.
pub open spec fn address_wf(a: AddressV) -> bool {
    a.ip.len() == family_addr_len(a.family)
}

impl Address {
    /// Whether the octet count matches the family (see [`address_wf`]).
    pub open spec fn wf(&self) -> bool {
        address_wf(self@)
    }

    /// Assemble an address from its family, port and raw octets.
    pub fn new(family: Family, port: u16, ip: Vec<u8>) -> (r: Self)
        ensures
            r@ == (AddressV { family, port, ip: ip@ }),
    {
        Address { family, port, ip }
    }
}

} // verus!
