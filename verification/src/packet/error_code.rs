//! The ERROR-CODE registry: numeric codes in `0..=699`, the named
//! entries assigned by RFC 5389 and its companions, and the reserved and
//! unassigned ranges around them.

use vstd::prelude::*;

use crate::error::DecodeError;

verus! {

/// A named STUN/TURN/ICE error code.
#[derive(Debug, Clone, Copy, PartialEq, Eq, Structural)]
pub enum ErrorCode {
    TryAlternate,
    BadRequest,
    Unauthorized,
    Forbidden,
    MobilityForbidden,
    UnknownAttribute,
    IntegrityCheckFailure,
    AllocationMismatch,
    StaleNonce,
    AddressFamilyNotSupported,
    WrongCredentials,
    UnsupportedTransportProtocol,
    PeerAddressFamilyMismatch,
    ConnectionAlreadyExists,
    ConnectionTimeoutOrFailure,
    AllocationQuotaReached,
    RoleConflict,
    ServerError,
    InsufficientCapacity,
    GlobalFailure,
}

/// The numeric code of a named error.
pub open spec fn error_code_code(e: ErrorCode) -> int {
    match e {
        ErrorCode::TryAlternate => 300,
        ErrorCode::BadRequest => 400,
        ErrorCode::Unauthorized => 401,
        ErrorCode::Forbidden => 403,
        ErrorCode::MobilityForbidden => 405,
        ErrorCode::UnknownAttribute => 420,
        ErrorCode::IntegrityCheckFailure => 431,
        ErrorCode::AllocationMismatch => 437,
        ErrorCode::StaleNonce => 438,
        ErrorCode::AddressFamilyNotSupported => 440,
        ErrorCode::WrongCredentials => 441,
        ErrorCode::UnsupportedTransportProtocol => 442,
        ErrorCode::PeerAddressFamilyMismatch => 443,
        ErrorCode::ConnectionAlreadyExists => 446,
        ErrorCode::ConnectionTimeoutOrFailure => 447,
        ErrorCode::AllocationQuotaReached => 486,
        ErrorCode::RoleConflict => 487,
        ErrorCode::ServerError => 500,
        ErrorCode::InsufficientCapacity => 508,
        ErrorCode::GlobalFailure => 600,
    }
}

/// Whether the registry leaves a code in `0..=699` unassigned.
pub open spec fn error_code_unassigned(n: int) -> bool {
    ||| 301 <= n <= 399
    ||| n == 402
    ||| n == 404
    ||| 406 <= n <= 419
    ||| 421 <= n <= 430
    ||| 432 <= n <= 436
    ||| n == 439
    ||| 444 <= n <= 445
    ||| 448 <= n <= 485
    ||| 488 <= n <= 499
    ||| 501 <= n <= 507
    ||| 509 <= n <= 599
    ||| 601 <= n <= 699
}

/// The named error a numeric code denotes, or how the registry rejects
/// it: `0..=299` is reserved, the gaps between named codes up to 699 are
/// unassigned, and anything above 699 lies outside the domain.
pub open spec fn error_code_from_code(n: int) -> Result<ErrorCode, DecodeError> {
    if 0 <= n <= 299 {
        Err(DecodeError::Reserved)
    } else if error_code_unassigned(n) {
        Err(DecodeError::Unassigned)
    } else if n == 300 {
        Ok(ErrorCode::TryAlternate)
    } else if n == 400 {
        Ok(ErrorCode::BadRequest)
    } else if n == 401 {
        Ok(ErrorCode::Unauthorized)
    } else if n == 403 {
        Ok(ErrorCode::Forbidden)
    } else if n == 405 {
        Ok(ErrorCode::MobilityForbidden)
    } else if n == 420 {
        Ok(ErrorCode::UnknownAttribute)
    } else if n == 431 {
        Ok(ErrorCode::IntegrityCheckFailure)
    } else if n == 437 {
        Ok(ErrorCode::AllocationMismatch)
    } else if n == 438 {
        Ok(ErrorCode::StaleNonce)
    } else if n == 440 {
        Ok(ErrorCode::AddressFamilyNotSupported)
    } else if n == 441 {
        Ok(ErrorCode::WrongCredentials)
    } else if n == 442 {
        Ok(ErrorCode::UnsupportedTransportProtocol)
    } else if n == 443 {
        Ok(ErrorCode::PeerAddressFamilyMismatch)
    } else if n == 446 {
        Ok(ErrorCode::ConnectionAlreadyExists)
    } else if n == 447 {
        Ok(ErrorCode::ConnectionTimeoutOrFailure)
    } else if n == 486 {
        Ok(ErrorCode::AllocationQuotaReached)
    } else if n == 487 {
        Ok(ErrorCode::RoleConflict)
    } else if n == 500 {
        Ok(ErrorCode::ServerError)
    } else if n == 508 {
        Ok(ErrorCode::InsufficientCapacity)
    } else if n == 600 {
        Ok(ErrorCode::GlobalFailure)
    } else {
        Err(DecodeError::OutOfRange)
    }
}

impl ErrorCode {
    /// The named error a numeric code denotes, classifying rejected codes
    /// as reserved, unassigned or out of the `0..=699` domain.
    pub fn from_u32(n: u32) -> (r: Result<Self, DecodeError>)
        ensures
            r == error_code_from_code(n as int),
    {
        match n {
            0..=299 => Err(DecodeError::Reserved),
            301..=399
            | 402
            | 404
            | 406..=419
            | 421..=430
            | 432..=436
            | 439
            | 444..=445
            | 448..=485
            | 488..=499
            | 501..=507
            | 509..=599
            | 601..=699 => Err(DecodeError::Unassigned),
            300 => Ok(ErrorCode::TryAlternate),
            400 => Ok(ErrorCode::BadRequest),
            401 => Ok(ErrorCode::Unauthorized),
            403 => Ok(ErrorCode::Forbidden),
            405 => Ok(ErrorCode::MobilityForbidden),
            420 => Ok(ErrorCode::UnknownAttribute),
            431 => Ok(ErrorCode::IntegrityCheckFailure),
            437 => Ok(ErrorCode::AllocationMismatch),
            438 => Ok(ErrorCode::StaleNonce),
            440 => Ok(ErrorCode::AddressFamilyNotSupported),
            441 => Ok(ErrorCode::WrongCredentials),
            442 => Ok(ErrorCode::UnsupportedTransportProtocol),
            443 => Ok(ErrorCode::PeerAddressFamilyMismatch),
            446 => Ok(ErrorCode::ConnectionAlreadyExists),
            447 => Ok(ErrorCode::ConnectionTimeoutOrFailure),
            486 => Ok(ErrorCode::AllocationQuotaReached),
            487 => Ok(ErrorCode::RoleConflict),
            500 => Ok(ErrorCode::ServerError),
            508 => Ok(ErrorCode::InsufficientCapacity),
            600 => Ok(ErrorCode::GlobalFailure),
            _ => Err(DecodeError::OutOfRange),
        }
    }

    /// The numeric code of this named error.
    pub fn to_u32(&self) -> (r: u32)
        ensures
            r as int == error_code_code(*self),
            300 <= r <= 600,
    {
        match *self {
            ErrorCode::TryAlternate => 300,
            ErrorCode::BadRequest => 400,
            ErrorCode::Unauthorized => 401,
            ErrorCode::Forbidden => 403,
            ErrorCode::MobilityForbidden => 405,
            ErrorCode::UnknownAttribute => 420,
            ErrorCode::IntegrityCheckFailure => 431,
            ErrorCode::AllocationMismatch => 437,
            ErrorCode::StaleNonce => 438,
            ErrorCode::AddressFamilyNotSupported => 440,
            ErrorCode::WrongCredentials => 441,
            ErrorCode::UnsupportedTransportProtocol => 442,
            ErrorCode::PeerAddressFamilyMismatch => 443,
            ErrorCode::ConnectionAlreadyExists => 446,
            ErrorCode::ConnectionTimeoutOrFailure => 447,
            ErrorCode::AllocationQuotaReached => 486,
            ErrorCode::RoleConflict => 487,
            ErrorCode::ServerError => 500,
            ErrorCode::InsufficientCapacity => 508,
            ErrorCode::GlobalFailure => 600,
        }
    }
}

/// Every named error's code maps back to the error it came from.
pub proof fn lemma_error_code_round_trip(e: ErrorCode)
    ensures
        error_code_from_code(error_code_code(e)) == Ok::<ErrorCode, DecodeError>(e),
{
}

/// Every code that decodes to a named error encodes back to itself.
pub proof fn lemma_error_code_code_inverse(n: int)
    ensures
        error_code_from_code(n) matches Ok(e) ==> error_code_code(e) == n,
{
}

} // verus!
