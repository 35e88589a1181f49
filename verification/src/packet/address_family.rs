//! The three-valued address-family table used by attributes that may
//! also carry no address at all: `0x00` for none, `0x01` for IPv4,
//! `0x02` for IPv6.

use vstd::prelude::*;

use crate::error::DecodeError;

verus! {

/// An address family byte, with `Unspecified` for the `0x00` value.
#[derive(Debug, Clone, Copy, PartialEq, Eq, Structural)]
pub enum AddressFamily {
    Unspecified,
    Ipv4,
    Ipv6,
}

/// The wire code of an address family.
pub open spec fn address_family_code(f: AddressFamily) -> int {
    match f {
        AddressFamily::Unspecified => 0x00,
        AddressFamily::Ipv4 => 0x01,
        AddressFamily::Ipv6 => 0x02,
    }
}

/// The family a numeric code denotes; every other code is `BadFamily`.
pub open spec fn address_family_from_code(n: int) -> Result<AddressFamily, DecodeError> {
    if n == 0x00 {
        Ok(AddressFamily::Unspecified)
    } else if n == 0x01 {
        Ok(AddressFamily::Ipv4)
    } else if n == 0x02 {
        Ok(AddressFamily::Ipv6)
    } else {
        Err(DecodeError::BadFamily)
    }
}

impl AddressFamily {
    /// The family a numeric code denotes.
    pub fn from_u32(n: u32) -> (r: Result<Self, DecodeError>)
        ensures
            r == address_family_from_code(n as int),
    {
        match n {
            0x00 => Ok(AddressFamily::Unspecified),
            0x01 => Ok(AddressFamily::Ipv4),
            0x02 => Ok(AddressFamily::Ipv6),
            _ => Err(DecodeError::BadFamily),
        }
    }

    /// The wire code of this family.
    pub fn to_u32(&self) -> (r: u32)
        ensures
            r as int == address_family_code(*self),
            r <= 2,
    {
        match *self {
            AddressFamily::Unspecified => 0x00,
            AddressFamily::Ipv4 => 0x01,
            AddressFamily::Ipv6 => 0x02,
        }
    }
}

/// Every family code maps back to the family it came from.
pub proof fn lemma_address_family_round_trip(f: AddressFamily)
    ensures
        address_family_from_code(address_family_code(f)) == Ok::<AddressFamily, DecodeError>(f),
{
}

/// Every code that decodes to a family encodes back to itself.
pub proof fn lemma_address_family_code_inverse(n: int)
    ensures
        address_family_from_code(n) matches Ok(f) ==> address_family_code(f) == n,
{
}

} // verus!
