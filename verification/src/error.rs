//! The decode-failure taxonomy shared by every codec in the crate.

use vstd::prelude::*;

verus! {

/// Why a byte buffer, a numeric code or an attribute value was rejected.
///
/// Every fallible operation in the crate reports one of these; no decoder
/// panics and no failure is collapsed into another.
#[derive(Clone, Copy, Debug, PartialEq, Eq, Structural)]
pub enum DecodeError {
    /// The buffer is shorter than the fixed 20-byte header.
    BadLength,
    /// The two leading bits of the header are not `0b00`.
    BadPrefix,
    /// The 32-bit magic cookie is not `0x2112A442`.
    BadMagicCookie,
    /// The numeric code falls in a range the governing registry reserves.
    Reserved,
    /// The numeric code falls in a range the registry has not assigned.
    Unassigned,
    /// The numeric code lies outside the registry's numeric domain.
    OutOfRange,
    /// An address family byte that is neither `0x01` (IPv4) nor `0x02` (IPv6).
    BadFamily,
    /// The address bytes do not match the width the family byte demands.
    AddressLengthMismatch,
    /// An error-code attribute whose combined code no table entry accepts.
    BadErrorCode,
    /// The buffer ends before the length a header or attribute declares.
    TruncatedMessage,
    /// A declared length that whole attributes cannot account for exactly.
    LengthMismatch,
}

} // verus!
