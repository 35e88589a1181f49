//! Type-length-value attributes: the 16-bit attribute-type registry, the
//! structured values of address-bearing and error-code attributes, and
//! the TLV framing itself.
//!
//! An attribute is framed as a 2-byte type code, a 2-byte length and
//! `length` bytes of value.  Address-bearing values hold one reserved
//! zero byte, one family byte, a big-endian port and the raw address
//! octets; error-code values hold two reserved bytes, a class byte and a
//! number byte.  Every other value is carried as an opaque byte payload.

use vstd::prelude::*;
use vstd::slice::{slice_subrange, slice_to_vec};

use crate::error::DecodeError;
use crate::packet::address::{
    address_wf, family_addr_len, family_code, family_from_code, lemma_family_round_trip, Address,
    AddressV, Family,
};
use crate::packet::error_code::{
    error_code_code, error_code_from_code, lemma_error_code_round_trip, ErrorCode,
};
use crate::wire::be16;

verus! {

/// A named entry of the 16-bit attribute-type registry.
#[derive(Debug, Clone, Copy, PartialEq, Eq, Structural)]
pub enum AttributeType {
    MappedAddress,
    ResponseAddress,
    ChangeRequest,
    SourceAddress,
    ChangedAddress,
    UserName,
    Password,
    MessageIntegrity,
    ErrorCode,
    UnknownAttribute,
    ReflectedFrom,
    ChannelNumber,
    LifeTime,
    BandWidth,
    XorPeerAddress,
    Data,
    Realm,
    Nonce,
    XorRelayedAddress,
    RequestAddressFamily,
    EvenPort,
    RequestedTransport,
    DontFragment,
    AccessToken,
    XorMappedAddress,
    TimerVal,
    ReservationToken,
    Priority,
    UseCandidate,
    Padding,
    ResponsePort,
    ConnectionID,
    Software,
    AlternateServer,
    TransactionTransmitCounter,
    CacheTimeout,
    FingerPrint,
    ICEControlled,
    ICEControlling,
    ResponseOrigin,
    OtherAddress,
    ECNCheckStun,
    ThirdPartyAuthorization,
    MobilityTicket,
    CiscoStunFlowData,
    ENFFlowDescription,
    ENFNetworkStatus,
}

/// The 16-bit wire code of a named attribute type.
pub open spec fn attr_type_code(t: AttributeType) -> int {
    match t {
        AttributeType::MappedAddress => 0x0001,
        AttributeType::ResponseAddress => 0x0002,
        AttributeType::ChangeRequest => 0x0003,
        AttributeType::SourceAddress => 0x0004,
        AttributeType::ChangedAddress => 0x0005,
        AttributeType::UserName => 0x0006,
        AttributeType::Password => 0x0007,
        AttributeType::MessageIntegrity => 0x0008,
        AttributeType::ErrorCode => 0x0009,
        AttributeType::UnknownAttribute => 0x000A,
        AttributeType::ReflectedFrom => 0x000B,
        AttributeType::ChannelNumber => 0x000C,
        AttributeType::LifeTime => 0x000D,
        AttributeType::BandWidth => 0x0010,
        AttributeType::XorPeerAddress => 0x0012,
        AttributeType::Data => 0x0013,
        AttributeType::Realm => 0x0014,
        AttributeType::Nonce => 0x0015,
        AttributeType::XorRelayedAddress => 0x0016,
        AttributeType::RequestAddressFamily => 0x0017,
        AttributeType::EvenPort => 0x0018,
        AttributeType::RequestedTransport => 0x0019,
        AttributeType::DontFragment => 0x001A,
        AttributeType::AccessToken => 0x001B,
        AttributeType::XorMappedAddress => 0x0020,
        AttributeType::TimerVal => 0x0021,
        AttributeType::ReservationToken => 0x0022,
        AttributeType::Priority => 0x0024,
        AttributeType::UseCandidate => 0x0025,
        AttributeType::Padding => 0x0026,
        AttributeType::ResponsePort => 0x0027,
        AttributeType::ConnectionID => 0x002A,
        AttributeType::Software => 0x8022,
        AttributeType::AlternateServer => 0x8023,
        AttributeType::TransactionTransmitCounter => 0x8025,
        AttributeType::CacheTimeout => 0x8027,
        AttributeType::FingerPrint => 0x8028,
        AttributeType::ICEControlled => 0x8029,
        AttributeType::ICEControlling => 0x802A,
        AttributeType::ResponseOrigin => 0x802B,
        AttributeType::OtherAddress => 0x802C,
        AttributeType::ECNCheckStun => 0x802D,
        AttributeType::ThirdPartyAuthorization => 0x802E,
        AttributeType::MobilityTicket => 0x8030,
        AttributeType::CiscoStunFlowData => 0xC000,
        AttributeType::ENFFlowDescription => 0xC001,
        AttributeType::ENFNetworkStatus => 0xC002,
    }
}

/// Whether the registry reserves a 16-bit attribute-type code.
pub open spec fn attr_type_reserved(n: int) -> bool {
    ||| n == 0x0000
    ||| 0x000E <= n <= 0x000F
    ||| n == 0x0011
    ||| n == 0x0023
    ||| 0x0028 <= n <= 0x0029
    ||| n == 0x0030
    ||| n == 0x8024
    ||| n == 0x8026
}

/// Whether the registry leaves a 16-bit attribute-type code unassigned.
pub open spec fn attr_type_unassigned(n: int) -> bool {
    ||| 0x001C <= n <= 0x001F
    ||| 0x002B <= n <= 0x002F
    ||| 0x0031 <= n <= 0x7FFF
    ||| 0x8000 <= n <= 0x8021
    ||| n == 0x802F
    ||| 0x8031 <= n <= 0xBFFF
    ||| 0xC003 <= n <= 0xFFFF
}

/// The named attribute type a numeric code denotes, or how the registry
/// rejects the code: reserved, unassigned, or outside the 16-bit domain.
pub open spec fn attr_type_from_code(n: int) -> Result<AttributeType, DecodeError> {
    if attr_type_reserved(n) {
        Err(DecodeError::Reserved)
    } else if attr_type_unassigned(n) {
        Err(DecodeError::Unassigned)
    } else if n == 0x0001 {
        Ok(AttributeType::MappedAddress)
    } else if n == 0x0002 {
        Ok(AttributeType::ResponseAddress)
    } else if n == 0x0003 {
        Ok(AttributeType::ChangeRequest)
    } else if n == 0x0004 {
        Ok(AttributeType::SourceAddress)
    } else if n == 0x0005 {
        Ok(AttributeType::ChangedAddress)
    } else if n == 0x0006 {
        Ok(AttributeType::UserName)
    } else if n == 0x0007 {
        Ok(AttributeType::Password)
    } else if n == 0x0008 {
        Ok(AttributeType::MessageIntegrity)
    } else if n == 0x0009 {
        Ok(AttributeType::ErrorCode)
    } else if n == 0x000A {
        Ok(AttributeType::UnknownAttribute)
    } else if n == 0x000B {
        Ok(AttributeType::ReflectedFrom)
    } else if n == 0x000C {
        Ok(AttributeType::ChannelNumber)
    } else if n == 0x000D {
        Ok(AttributeType::LifeTime)
    } else if n == 0x0010 {
        Ok(AttributeType::BandWidth)
    } else if n == 0x0012 {
        Ok(AttributeType::XorPeerAddress)
    } else if n == 0x0013 {
        Ok(AttributeType::Data)
    } else if n == 0x0014 {
        Ok(AttributeType::Realm)
    } else if n == 0x0015 {
        Ok(AttributeType::Nonce)
    } else if n == 0x0016 {
        Ok(AttributeType::XorRelayedAddress)
    } else if n == 0x0017 {
        Ok(AttributeType::RequestAddressFamily)
    } else if n == 0x0018 {
        Ok(AttributeType::EvenPort)
    } else if n == 0x0019 {
        Ok(AttributeType::RequestedTransport)
    } else if n == 0x001A {
        Ok(AttributeType::DontFragment)
    } else if n == 0x001B {
        Ok(AttributeType::AccessToken)
    } else if n == 0x0020 {
        Ok(AttributeType::XorMappedAddress)
    } else if n == 0x0021 {
        Ok(AttributeType::TimerVal)
    } else if n == 0x0022 {
        Ok(AttributeType::ReservationToken)
    } else if n == 0x0024 {
        Ok(AttributeType::Priority)
    } else if n == 0x0025 {
        Ok(AttributeType::UseCandidate)
    } else if n == 0x0026 {
        Ok(AttributeType::Padding)
    } else if n == 0x0027 {
        Ok(AttributeType::ResponsePort)
    } else if n == 0x002A {
        Ok(AttributeType::ConnectionID)
    } else if n == 0x8022 {
        Ok(AttributeType::Software)
    } else if n == 0x8023 {
        Ok(AttributeType::AlternateServer)
    } else if n == 0x8025 {
        Ok(AttributeType::TransactionTransmitCounter)
    } else if n == 0x8027 {
        Ok(AttributeType::CacheTimeout)
    } else if n == 0x8028 {
        Ok(AttributeType::FingerPrint)
    } else if n == 0x8029 {
        Ok(AttributeType::ICEControlled)
    } else if n == 0x802A {
        Ok(AttributeType::ICEControlling)
    } else if n == 0x802B {
        Ok(AttributeType::ResponseOrigin)
    } else if n == 0x802C {
        Ok(AttributeType::OtherAddress)
    } else if n == 0x802D {
        Ok(AttributeType::ECNCheckStun)
    } else if n == 0x802E {
        Ok(AttributeType::ThirdPartyAuthorization)
    } else if n == 0x8030 {
        Ok(AttributeType::MobilityTicket)
    } else if n == 0xC000 {
        Ok(AttributeType::CiscoStunFlowData)
    } else if n == 0xC001 {
        Ok(AttributeType::ENFFlowDescription)
    } else if n == 0xC002 {
        Ok(AttributeType::ENFNetworkStatus)
    } else {
        Err(DecodeError::OutOfRange)
    }
}

impl AttributeType {
    /// The named attribute type a numeric code denotes, classifying
    /// rejected codes as reserved, unassigned or out of the 16-bit range.
    pub fn from_u32(n: u32) -> (r: Result<Self, DecodeError>)
        ensures
            r == attr_type_from_code(n as int),
    {
        match n {
            0x0000
            | 0x000E..=0x000F
            | 0x0011
            | 0x0023
            | 0x0028..=0x0029
            | 0x0030
            | 0x8024
            | 0x8026 => Err(DecodeError::Reserved),
            0x001C..=0x001F
            | 0x002B..=0x002F
            | 0x0031..=0x7FFF
            | 0x8000..=0x8021
            | 0x802F
            | 0x8031..=0xBFFF
            | 0xC003..=0xFFFF => Err(DecodeError::Unassigned),
            0x0001 => Ok(AttributeType::MappedAddress),
            0x0002 => Ok(AttributeType::ResponseAddress),
            0x0003 => Ok(AttributeType::ChangeRequest),
            0x0004 => Ok(AttributeType::SourceAddress),
            0x0005 => Ok(AttributeType::ChangedAddress),
            0x0006 => Ok(AttributeType::UserName),
            0x0007 => Ok(AttributeType::Password),
            0x0008 => Ok(AttributeType::MessageIntegrity),
            0x0009 => Ok(AttributeType::ErrorCode),
            0x000A => Ok(AttributeType::UnknownAttribute),
            0x000B => Ok(AttributeType::ReflectedFrom),
            0x000C => Ok(AttributeType::ChannelNumber),
            0x000D => Ok(AttributeType::LifeTime),
            0x0010 => Ok(AttributeType::BandWidth),
            0x0012 => Ok(AttributeType::XorPeerAddress),
            0x0013 => Ok(AttributeType::Data),
            0x0014 => Ok(AttributeType::Realm),
            0x0015 => Ok(AttributeType::Nonce),
            0x0016 => Ok(AttributeType::XorRelayedAddress),
            0x0017 => Ok(AttributeType::RequestAddressFamily),
            0x0018 => Ok(AttributeType::EvenPort),
            0x0019 => Ok(AttributeType::RequestedTransport),
            0x001A => Ok(AttributeType::DontFragment),
            0x001B => Ok(AttributeType::AccessToken),
            0x0020 => Ok(AttributeType::XorMappedAddress),
            0x0021 => Ok(AttributeType::TimerVal),
            0x0022 => Ok(AttributeType::ReservationToken),
            0x0024 => Ok(AttributeType::Priority),
            0x0025 => Ok(AttributeType::UseCandidate),
            0x0026 => Ok(AttributeType::Padding),
            0x0027 => Ok(AttributeType::ResponsePort),
            0x002A => Ok(AttributeType::ConnectionID),
            0x8022 => Ok(AttributeType::Software),
            0x8023 => Ok(AttributeType::AlternateServer),
            0x8025 => Ok(AttributeType::TransactionTransmitCounter),
            0x8027 => Ok(AttributeType::CacheTimeout),
            0x8028 => Ok(AttributeType::FingerPrint),
            0x8029 => Ok(AttributeType::ICEControlled),
            0x802A => Ok(AttributeType::ICEControlling),
            0x802B => Ok(AttributeType::ResponseOrigin),
            0x802C => Ok(AttributeType::OtherAddress),
            0x802D => Ok(AttributeType::ECNCheckStun),
            0x802E => Ok(AttributeType::ThirdPartyAuthorization),
            0x8030 => Ok(AttributeType::MobilityTicket),
            0xC000 => Ok(AttributeType::CiscoStunFlowData),
            0xC001 => Ok(AttributeType::ENFFlowDescription),
            0xC002 => Ok(AttributeType::ENFNetworkStatus),
            _ => Err(DecodeError::OutOfRange),
        }
    }

    /// The attribute type the first two bytes denote, read big-endian.
    pub fn from_bytes(bytes: &[u8]) -> (r: Result<Self, DecodeError>)
        requires
            bytes@.len() >= 2,
        ensures
            r == attr_type_from_code(be16(bytes@, 0)),
    {
        let code: u32 = (bytes[0] as u32) * 256 + (bytes[1] as u32);
        AttributeType::from_u32(code)
    }

    /// The 16-bit wire code of this attribute type.
    pub fn to_u32(&self) -> (r: u32)
        ensures
            r as int == attr_type_code(*self),
            0 < r < 0x10000,
    {
        match *self {
            AttributeType::MappedAddress => 0x0001,
            AttributeType::ResponseAddress => 0x0002,
            AttributeType::ChangeRequest => 0x0003,
            AttributeType::SourceAddress => 0x0004,
            AttributeType::ChangedAddress => 0x0005,
            AttributeType::UserName => 0x0006,
            AttributeType::Password => 0x0007,
            AttributeType::MessageIntegrity => 0x0008,
            AttributeType::ErrorCode => 0x0009,
            AttributeType::UnknownAttribute => 0x000A,
            AttributeType::ReflectedFrom => 0x000B,
            AttributeType::ChannelNumber => 0x000C,
            AttributeType::LifeTime => 0x000D,
            AttributeType::BandWidth => 0x0010,
            AttributeType::XorPeerAddress => 0x0012,
            AttributeType::Data => 0x0013,
            AttributeType::Realm => 0x0014,
            AttributeType::Nonce => 0x0015,
            AttributeType::XorRelayedAddress => 0x0016,
            AttributeType::RequestAddressFamily => 0x0017,
            AttributeType::EvenPort => 0x0018,
            AttributeType::RequestedTransport => 0x0019,
            AttributeType::DontFragment => 0x001A,
            AttributeType::AccessToken => 0x001B,
            AttributeType::XorMappedAddress => 0x0020,
            AttributeType::TimerVal => 0x0021,
            AttributeType::ReservationToken => 0x0022,
            AttributeType::Priority => 0x0024,
            AttributeType::UseCandidate => 0x0025,
            AttributeType::Padding => 0x0026,
            AttributeType::ResponsePort => 0x0027,
            AttributeType::ConnectionID => 0x002A,
            AttributeType::Software => 0x8022,
            AttributeType::AlternateServer => 0x8023,
            AttributeType::TransactionTransmitCounter => 0x8025,
            AttributeType::CacheTimeout => 0x8027,
            AttributeType::FingerPrint => 0x8028,
            AttributeType::ICEControlled => 0x8029,
            AttributeType::ICEControlling => 0x802A,
            AttributeType::ResponseOrigin => 0x802B,
            AttributeType::OtherAddress => 0x802C,
            AttributeType::ECNCheckStun => 0x802D,
            AttributeType::ThirdPartyAuthorization => 0x802E,
            AttributeType::MobilityTicket => 0x8030,
            AttributeType::CiscoStunFlowData => 0xC000,
            AttributeType::ENFFlowDescription => 0xC001,
            AttributeType::ENFNetworkStatus => 0xC002,
        }
    }
}

/// Every named attribute type's code maps back to the type it came from.
pub proof fn lemma_attr_type_round_trip(t: AttributeType)
    ensures
        attr_type_from_code(attr_type_code(t)) == Ok::<AttributeType, DecodeError>(t),
{
}

/// Every code that decodes to an attribute type encodes back to itself.
pub proof fn lemma_attr_type_code_inverse(n: int)
    ensures
        attr_type_from_code(n) matches Ok(t) ==> attr_type_code(t) == n,
{
}

/// The structured value an attribute carries: an address for the
/// address-bearing types, a named error for ERROR-CODE, and an opaque
/// byte payload for everything without a defined encoding here.
#[derive(Debug, Clone, PartialEq)]
pub enum AttributeValue {
    MappedAddress(Address),
    XorMappedAddress(Address),
    ResponseAddress(Address),
    ResponseOrigin(Address),
    XorPeerAddress(Address),
    UserName(Vec<u8>),
    ErrorCode(ErrorCode),
    UnknownAttribute(Vec<u8>),
    ReflectedFrom(Vec<u8>),
}

/// The mathematical model of an attribute value.
pub enum AttributeValueV {
    MappedAddress(AddressV),
    XorMappedAddress(AddressV),
    ResponseAddress(AddressV),
    ResponseOrigin(AddressV),
    XorPeerAddress(AddressV),
    UserName(Seq<u8>),
    ErrorCode(ErrorCode),
    UnknownAttribute(Seq<u8>),
    ReflectedFrom(Seq<u8>),
}

impl View for AttributeValue {
    type V = AttributeValueV;

    open spec fn view(&self) -> AttributeValueV {
        match self {
            AttributeValue::MappedAddress(a) => AttributeValueV::MappedAddress(a@),
            AttributeValue::XorMappedAddress(a) => AttributeValueV::XorMappedAddress(a@),
            AttributeValue::ResponseAddress(a) => AttributeValueV::ResponseAddress(a@),
            AttributeValue::ResponseOrigin(a) => AttributeValueV::ResponseOrigin(a@),
            AttributeValue::XorPeerAddress(a) => AttributeValueV::XorPeerAddress(a@),
            AttributeValue::UserName(p) => AttributeValueV::UserName(p@),
            AttributeValue::ErrorCode(e) => AttributeValueV::ErrorCode(*e),
            AttributeValue::UnknownAttribute(p) => AttributeValueV::UnknownAttribute(p@),
            AttributeValue::ReflectedFrom(p) => AttributeValueV::ReflectedFrom(p@),
        }
    }
}

/// Whether an attribute type carries an address-shaped value.
pub open spec fn is_address_type(t: AttributeType) -> bool {
    ||| t == AttributeType::MappedAddress
    ||| t == AttributeType::XorMappedAddress
    ||| t == AttributeType::ResponseAddress
    ||| t == AttributeType::ResponseOrigin
    ||| t == AttributeType::XorPeerAddress
}

/// The value constructor an address-bearing type wraps its address in.
pub open spec fn address_value_of(t: AttributeType, a: AddressV) -> AttributeValueV {
    if t == AttributeType::MappedAddress {
        AttributeValueV::MappedAddress(a)
    } else if t == AttributeType::XorMappedAddress {
        AttributeValueV::XorMappedAddress(a)
    } else if t == AttributeType::ResponseAddress {
        AttributeValueV::ResponseAddress(a)
    } else if t == AttributeType::ResponseOrigin {
        AttributeValueV::ResponseOrigin(a)
    } else {
        AttributeValueV::XorPeerAddress(a)
    }
}

/// The bytes of an address-shaped value: one reserved zero byte, the
/// family byte, the port big-endian, then the address octets.
pub open spec fn address_bytes(a: AddressV) -> Seq<u8> {
    seq![
        0u8,
        family_code(a.family) as u8,
        (a.port as int / 256) as u8,
        (a.port as int % 256) as u8,
    ] + a.ip
}

/// What decoding an address-shaped value yields: `BadLength` under four
/// bytes, `BadFamily` unless the family byte is `0x01` or `0x02`, and
/// `AddressLengthMismatch` unless the remaining bytes match the width
/// the family demands.
pub open spec fn address_from_bytes(b: Seq<u8>) -> Result<AddressV, DecodeError> {
    if b.len() < 4 {
        Err(DecodeError::BadLength)
    } else {
        match family_from_code(b[1] as int) {
            Err(e) => Err(e),
            Ok(f) => if b.len() - 4 != family_addr_len(f) {
                Err(DecodeError::AddressLengthMismatch)
            } else {
                Ok(
                    AddressV {
                        family: f,
                        port: be16(b, 2) as u16,
                        ip: b.subrange(4, b.len() as int),
                    },
                )
            },
        }
    }
}

/// The bytes of an ERROR-CODE value: two reserved zero bytes, the error
/// class, and the error number.
pub open spec fn error_value_bytes(e: ErrorCode) -> Seq<u8> {
    seq![
        0u8,
        0u8,
        (error_code_code(e) / 100) as u8,
        (error_code_code(e) % 100) as u8,
    ]
}

/// What decoding an ERROR-CODE value yields: the low three bits of the
/// class byte and the number byte combine as `class * 100 + number`
/// before the table lookup; a code the table rejects is `BadErrorCode`.
pub open spec fn error_value_from_bytes(b: Seq<u8>) -> Result<ErrorCode, DecodeError> {
    if b.len() != 4 {
        Err(DecodeError::BadLength)
    } else {
        match error_code_from_code((b[2] as int % 8) * 100 + b[3] as int) {
            Ok(e) => Ok(e),
            Err(_) => Err(DecodeError::BadErrorCode),
        }
    }
}

/// The encoded bytes of an attribute value.
pub open spec fn value_bytes(v: AttributeValueV) -> Seq<u8> {
    match v {
        AttributeValueV::MappedAddress(a) => address_bytes(a),
        AttributeValueV::XorMappedAddress(a) => address_bytes(a),
        AttributeValueV::ResponseAddress(a) => address_bytes(a),
        AttributeValueV::ResponseOrigin(a) => address_bytes(a),
        AttributeValueV::XorPeerAddress(a) => address_bytes(a),
        AttributeValueV::UserName(p) => p,
        AttributeValueV::ErrorCode(e) => error_value_bytes(e),
        AttributeValueV::UnknownAttribute(p) => p,
        AttributeValueV::ReflectedFrom(p) => p,
    }
}

/// What the type-directed decoding of a value yields: address-bearing
/// types parse an address, ERROR-CODE parses a named error, and every
/// other type is carried as an opaque payload.
pub open spec fn value_from_bytes(t: AttributeType, b: Seq<u8>) -> Result<
    AttributeValueV,
    DecodeError,
> {
    if is_address_type(t) {
        match address_from_bytes(b) {
            Err(e) => Err(e),
            Ok(a) => Ok(address_value_of(t, a)),
        }
    } else if t == AttributeType::ErrorCode {
        match error_value_from_bytes(b) {
            Err(e) => Err(e),
            Ok(e) => Ok(AttributeValueV::ErrorCode(e)),
        }
    } else if t == AttributeType::UserName {
        Ok(AttributeValueV::UserName(b))
    } else if t == AttributeType::ReflectedFrom {
        Ok(AttributeValueV::ReflectedFrom(b))
    } else {
        Ok(AttributeValueV::UnknownAttribute(b))
    }
}

/// A value whose address octets, if any, match their family.
pub open spec fn value_wf(v: AttributeValueV) -> bool {
    match v {
        AttributeValueV::MappedAddress(a) => address_wf(a),
        AttributeValueV::XorMappedAddress(a) => address_wf(a),
        AttributeValueV::ResponseAddress(a) => address_wf(a),
        AttributeValueV::ResponseOrigin(a) => address_wf(a),
        AttributeValueV::XorPeerAddress(a) => address_wf(a),
        AttributeValueV::UserName(_) => true,
        AttributeValueV::ErrorCode(_) => true,
        AttributeValueV::UnknownAttribute(_) => true,
        AttributeValueV::ReflectedFrom(_) => true,
    }
}

/// Whether a value is the one the type-directed dispatch produces for
/// the given attribute type.
pub open spec fn type_value_agree(t: AttributeType, v: AttributeValueV) -> bool {
    match v {
        AttributeValueV::MappedAddress(_) => t == AttributeType::MappedAddress,
        AttributeValueV::XorMappedAddress(_) => t == AttributeType::XorMappedAddress,
        AttributeValueV::ResponseAddress(_) => t == AttributeType::ResponseAddress,
        AttributeValueV::ResponseOrigin(_) => t == AttributeType::ResponseOrigin,
        AttributeValueV::XorPeerAddress(_) => t == AttributeType::XorPeerAddress,
        AttributeValueV::UserName(_) => t == AttributeType::UserName,
        AttributeValueV::ErrorCode(_) => t == AttributeType::ErrorCode,
        AttributeValueV::ReflectedFrom(_) => t == AttributeType::ReflectedFrom,
        AttributeValueV::UnknownAttribute(_) => !is_address_type(t) && t
            != AttributeType::ErrorCode && t != AttributeType::UserName && t
            != AttributeType::ReflectedFrom,
    }
}

/// An address value whose family byte says IPv4 but whose remainder
/// has IPv6's width is rejected as a length mismatch, whatever bytes it
/// holds.
pub proof fn lemma_address_width_mismatch(b: Seq<u8>)
    requires
        b.len() == 20,
        b[1] == 0x01,
    ensures
        address_from_bytes(b) == Err::<AddressV, DecodeError>(DecodeError::AddressLengthMismatch),
{
}

/// Whatever a value decodes to agrees with the type that was dispatched
/// on, is well formed, and encodes to as many bytes as were decoded.
pub proof fn lemma_value_parse_props(t: AttributeType, b: Seq<u8>)
    ensures
        value_from_bytes(t, b) matches Ok(v) ==> type_value_agree(t, v) && value_wf(v)
            && value_bytes(v).len() == b.len(),
{
    let r = value_from_bytes(t, b);
    if r is Ok {
        let v = r->Ok_0;
        if is_address_type(t) {
            let a = address_from_bytes(b)->Ok_0;
            assert(value_bytes(v) == address_bytes(a));
            assert(address_bytes(a).len() == 4 + a.ip.len());
        } else if t == AttributeType::ErrorCode {
        }
    }
}

/// Decoding the encoding of a well-formed value under its own attribute
/// type yields the value back.
pub proof fn lemma_value_round_trip(t: AttributeType, v: AttributeValueV)
    requires
        type_value_agree(t, v),
        value_wf(v),
    ensures
        value_from_bytes(t, value_bytes(v)) == Ok::<AttributeValueV, DecodeError>(v),
{
    match v {
        AttributeValueV::MappedAddress(a) => lemma_address_value_round_trip(t, a),
        AttributeValueV::XorMappedAddress(a) => lemma_address_value_round_trip(t, a),
        AttributeValueV::ResponseAddress(a) => lemma_address_value_round_trip(t, a),
        AttributeValueV::ResponseOrigin(a) => lemma_address_value_round_trip(t, a),
        AttributeValueV::XorPeerAddress(a) => lemma_address_value_round_trip(t, a),
        AttributeValueV::ErrorCode(e) => {
            let b = error_value_bytes(e);
            let code = error_code_code(e);
            assert(300 <= code <= 600);
            assert(b[2] == (code / 100) as u8);
            assert(3 <= code / 100 <= 6);
            assert(b[2] as int % 8 == code / 100);
            assert(0 <= code % 100 < 100);
            assert((b[2] as int % 8) * 100 + b[3] as int == code);
            lemma_error_code_round_trip(e);
        },
        _ => {},
    }
}

proof fn lemma_address_value_round_trip(t: AttributeType, a: AddressV)
    requires
        is_address_type(t),
        type_value_agree(t, address_value_of(t, a)),
        address_wf(a),
    ensures
        value_from_bytes(t, address_bytes(a)) == Ok::<AttributeValueV, DecodeError>(
            address_value_of(t, a),
        ),
{
    let b = address_bytes(a);
    assert(b.len() == 4 + a.ip.len());
    assert(b[1] == family_code(a.family) as u8);
    lemma_family_round_trip(a.family);
    assert(family_from_code(b[1] as int) == Ok::<Family, DecodeError>(a.family));
    assert(be16(b, 2) == (a.port as int / 256) * 256 + (a.port as int % 256));
    assert(be16(b, 2) == a.port as int);
    assert(b.subrange(4, b.len() as int) =~= a.ip);
}

impl AttributeValue {
    /// Whether this value is well formed (see [`value_wf`]).
    pub open spec fn wf(&self) -> bool {
        value_wf(self@)
    }

    /// Decode an attribute value under the given attribute type.
    ///
    /// Address-bearing types fail with `BadFamily` on a family byte that
    /// is neither `0x01` nor `0x02` and with `AddressLengthMismatch` when
    /// the remaining bytes do not match the family's width; ERROR-CODE
    /// fails with `BadErrorCode` when the combined code is not a table
    /// entry; every other type is carried opaquely and cannot fail.
    pub fn from_bytes(attr_type: AttributeType, bytes: &[u8]) -> (r: Result<Self, DecodeError>)
        ensures
            match r {
                Ok(v) => value_from_bytes(attr_type, bytes@) == Ok::<AttributeValueV, DecodeError>(
                    v@,
                ) && v.wf() && type_value_agree(attr_type, v@),
                Err(e) => value_from_bytes(attr_type, bytes@) == Err::<AttributeValueV, DecodeError>(
                    e,
                ),
            },
    {
        match attr_type {
            AttributeType::MappedAddress
            | AttributeType::XorMappedAddress
            | AttributeType::ResponseAddress
            | AttributeType::ResponseOrigin
            | AttributeType::XorPeerAddress => {
                if bytes.len() < 4 {
                    return Err(DecodeError::BadLength);
                }
                let family = match Family::from_u32(bytes[1] as u32) {
                    Ok(f) => f,
                    Err(e) => return Err(e),
                };
                let expected: usize = match family {
                    Family::Ipv4 => 4,
                    Family::Ipv6 => 16,
                };
                if bytes.len() - 4 != expected {
                    return Err(DecodeError::AddressLengthMismatch);
                }
                let port: u16 = (bytes[2] as u16) * 256 + (bytes[3] as u16);
                let ip = slice_to_vec(slice_subrange(bytes, 4, bytes.len()));
                let addr = Address { family, port, ip };
                match attr_type {
                    AttributeType::MappedAddress => Ok(AttributeValue::MappedAddress(addr)),
                    AttributeType::XorMappedAddress => Ok(AttributeValue::XorMappedAddress(addr)),
                    AttributeType::ResponseAddress => Ok(AttributeValue::ResponseAddress(addr)),
                    AttributeType::ResponseOrigin => Ok(AttributeValue::ResponseOrigin(addr)),
                    _ => Ok(AttributeValue::XorPeerAddress(addr)),
                }
            },
            AttributeType::ErrorCode => {
                if bytes.len() != 4 {
                    return Err(DecodeError::BadLength);
                }
                let code: u32 = (bytes[2] % 8) as u32 * 100 + bytes[3] as u32;
                match ErrorCode::from_u32(code) {
                    Ok(e) => Ok(AttributeValue::ErrorCode(e)),
                    Err(_) => Err(DecodeError::BadErrorCode),
                }
            },
            AttributeType::UserName => Ok(AttributeValue::UserName(slice_to_vec(bytes))),
            AttributeType::ReflectedFrom => Ok(AttributeValue::ReflectedFrom(slice_to_vec(bytes))),
            _ => Ok(AttributeValue::UnknownAttribute(slice_to_vec(bytes))),
        }
    }

    /// Encode this value to its wire bytes, the inverse of
    /// [`AttributeValue::from_bytes`] under the value's own type.
    pub fn into_bytes(&self) -> (r: Vec<u8>)
        requires
            self.wf(),
        ensures
            r@ == value_bytes(self@),
    {
        match self {
            AttributeValue::MappedAddress(a) => encode_address(a),
            AttributeValue::XorMappedAddress(a) => encode_address(a),
            AttributeValue::ResponseAddress(a) => encode_address(a),
            AttributeValue::ResponseOrigin(a) => encode_address(a),
            AttributeValue::XorPeerAddress(a) => encode_address(a),
            AttributeValue::UserName(p) => slice_to_vec(p.as_slice()),
            AttributeValue::ErrorCode(e) => {
                let code = e.to_u32();
                let mut out: Vec<u8> = Vec::new();
                out.push(0);
                out.push(0);
                out.push((code / 100) as u8);
                out.push((code % 100) as u8);
                proof {
                    assert(out@ =~= error_value_bytes(*e));
                }
                out
            },
            AttributeValue::UnknownAttribute(p) => slice_to_vec(p.as_slice()),
            AttributeValue::ReflectedFrom(p) => slice_to_vec(p.as_slice()),
        }
    }
}

/// Encode an address-shaped value body.
fn encode_address(a: &Address) -> (r: Vec<u8>)
    requires
        a.wf(),
    ensures
        r@ == address_bytes(a@),
{
    let mut out: Vec<u8> = Vec::new();
    out.push(0);
    out.push(a.family.to_u32() as u8);
    out.push((a.port / 256) as u8);
    out.push((a.port % 256) as u8);
    let mut ip = slice_to_vec(a.ip.as_slice());
    out.append(&mut ip);
    proof {
        assert(out@ =~= address_bytes(a@));
    }
    out
}

/// One type-length-value attribute: its registry type, the declared
/// byte length of the value, and the value itself.
#[derive(Debug, Clone, PartialEq)]
pub struct Attribute {
    pub type_: AttributeType,
    pub length: u16,
    pub value: AttributeValue,
}

/// The mathematical model of an attribute.
pub struct AttributeV {
    pub type_: AttributeType,
    pub length: u16,
    pub value: AttributeValueV,
}

impl View for Attribute {
    type V = AttributeV;

    open spec fn view(&self) -> AttributeV {
        AttributeV { type_: self.type_, length: self.length, value: self.value@ }
    }
}

/// An attribute whose value agrees with its type, is well formed, and
/// whose declared length is the value's encoded byte count.
pub open spec fn attr_wf(a: AttributeV) -> bool {
    &&& type_value_agree(a.type_, a.value)
    &&& value_wf(a.value)
    &&& a.length == value_bytes(a.value).len()
}

/// The wire bytes of an attribute: 2-byte type code, 2-byte length,
/// then the value bytes.
pub open spec fn attr_bytes(a: AttributeV) -> Seq<u8> {
    seq![
        (attr_type_code(a.type_) / 256) as u8,
        (attr_type_code(a.type_) % 256) as u8,
        (a.length as int / 256) as u8,
        (a.length as int % 256) as u8,
    ] + value_bytes(a.value)
}

/// What decoding one attribute from the front of a buffer yields;
/// trailing bytes beyond the declared length are ignored.
pub open spec fn attr_from_bytes(b: Seq<u8>) -> Result<AttributeV, DecodeError> {
    if b.len() < 4 {
        Err(DecodeError::TruncatedMessage)
    } else {
        match attr_type_from_code(be16(b, 0)) {
            Err(e) => Err(e),
            Ok(t) => {
                let len = be16(b, 2);
                if b.len() < 4 + len {
                    Err(DecodeError::TruncatedMessage)
                } else {
                    match value_from_bytes(t, b.subrange(4, 4 + len)) {
                        Err(e) => Err(e),
                        Ok(v) => Ok(AttributeV { type_: t, length: len as u16, value: v }),
                    }
                }
            },
        }
    }
}

impl Attribute {
    /// Whether this attribute is well formed (see [`attr_wf`]).
    pub open spec fn wf(&self) -> bool {
        attr_wf(self@)
    }

    /// Decode one attribute from the front of `bytes`.
    ///
    /// Fails with `TruncatedMessage` when the buffer cannot hold the
    /// 4-byte TLV header or the declared value length, with the type
    /// table's classification for a reserved, unassigned or out-of-range
    /// type code, and with the value codec's error otherwise.
    pub fn from_bytes(bytes: &[u8]) -> (r: Result<Self, DecodeError>)
        ensures
            match r {
                Ok(a) => attr_from_bytes(bytes@) == Ok::<AttributeV, DecodeError>(a@) && a.wf(),
                Err(e) => attr_from_bytes(bytes@) == Err::<AttributeV, DecodeError>(e),
            },
    {
        if bytes.len() < 4 {
            return Err(DecodeError::TruncatedMessage);
        }
        let attr_type = match AttributeType::from_bytes(bytes) {
            Ok(t) => t,
            Err(e) => return Err(e),
        };
        let len: usize = (bytes[2] as usize) * 256 + (bytes[3] as usize);
        if bytes.len() < 4 + len {
            return Err(DecodeError::TruncatedMessage);
        }
        let value_slice = slice_subrange(bytes, 4, 4 + len);
        let value = match AttributeValue::from_bytes(attr_type, value_slice) {
            Ok(v) => v,
            Err(e) => return Err(e),
        };
        proof {
            lemma_value_parse_props(attr_type, value_slice@);
        }
        Ok(Attribute { type_: attr_type, length: len as u16, value })
    }

    /// Encode this attribute to its wire bytes, the inverse of
    /// [`Attribute::from_bytes`] on well-formed attributes.
    pub fn into_bytes(&self) -> (r: Vec<u8>)
        requires
            self.wf(),
        ensures
            r@ == attr_bytes(self@),
    {
        let mut out: Vec<u8> = Vec::new();
        let code = self.type_.to_u32();
        out.push((code / 256) as u8);
        out.push((code % 256) as u8);
        out.push((self.length / 256) as u8);
        out.push((self.length % 256) as u8);
        let mut tail = self.value.into_bytes();
        out.append(&mut tail);
        proof {
            assert(out@ =~= attr_bytes(self@));
        }
        out
    }
}

/// Whatever an attribute decodes to is well formed, declares the length
/// the buffer declared, and encodes to the bytes it consumed.
pub proof fn lemma_attr_parse_props(b: Seq<u8>)
    ensures
        attr_from_bytes(b) matches Ok(a) ==> attr_wf(a) && a.length == be16(b, 2)
            && attr_bytes(a).len() == 4 + a.length,
{
    let r = attr_from_bytes(b);
    if r is Ok {
        let a = r->Ok_0;
        let len = be16(b, 2);
        lemma_value_parse_props(a.type_, b.subrange(4, 4 + len));
    }
}

/// Decoding the encoding of a well-formed attribute yields the
/// attribute back, whatever bytes follow it in the buffer.
pub proof fn lemma_attr_round_trip_with_rest(a: AttributeV, rest: Seq<u8>)
    requires
        attr_wf(a),
    ensures
        attr_from_bytes(attr_bytes(a) + rest) == Ok::<AttributeV, DecodeError>(a),
{
    let b = attr_bytes(a) + rest;
    let code = attr_type_code(a.type_);
    assert(0 < code < 0x10000);
    assert(b[0] == (code / 256) as u8);
    assert(b[1] == (code % 256) as u8);
    assert(be16(b, 0) == code);
    lemma_attr_type_round_trip(a.type_);
    assert(be16(b, 2) == a.length as int);
    assert(b.len() == 4 + value_bytes(a.value).len() + rest.len());
    assert(b.subrange(4, 4 + a.length as int) =~= value_bytes(a.value));
    lemma_value_round_trip(a.type_, a.value);
}

/// Decoding the encoding of a well-formed attribute yields the
/// attribute back.
pub proof fn lemma_attr_round_trip(a: AttributeV)
    requires
        attr_wf(a),
    ensures
        attr_from_bytes(attr_bytes(a)) == Ok::<AttributeV, DecodeError>(a),
{
    lemma_attr_round_trip_with_rest(a, Seq::empty());
    assert(attr_bytes(a) + Seq::<u8>::empty() =~= attr_bytes(a));
}

} // verus!
