use ice::error::DecodeError;
use ice::packet::address::Family;
use ice::packet::address_family::AddressFamily;
use ice::packet::attribute::AttributeType;
use ice::packet::error_code::ErrorCode;
use ice::packet::header::{Class, Method};

#[test]
fn class_round_trip_all_variants() {
    let variants = vec![
        Class::Request,
        Class::Indication,
        Class::SuccessResponse,
        Class::FailureResponse,
    ];
    for v in variants {
        assert_eq!(Class::from_u32(v.to_u32()), Ok(v));
    }
}

#[test]
fn class_codes() {
    assert_eq!(Class::from_u32(0b00), Ok(Class::Request));
    assert_eq!(Class::from_u32(0b01), Ok(Class::Indication));
    assert_eq!(Class::from_u32(0b10), Ok(Class::SuccessResponse));
    assert_eq!(Class::from_u32(0b11), Ok(Class::FailureResponse));
    assert_eq!(Class::from_u32(4), Err(DecodeError::OutOfRange));
}

#[test]
fn method_round_trip_all_variants() {
    let variants = vec![
        Method::Binding,
        Method::SharedSecret,
        Method::Allocate,
        Method::Refresh,
        Method::Send,
        Method::Data,
        Method::CreatePermission,
        Method::ChannelBind,
        Method::Connect,
        Method::ConnectionBind,
        Method::ConnectionAttempt,
    ];
    for v in variants {
        assert_eq!(Method::from_u32(v.to_u32()), Ok(v));
    }
}

#[test]
fn method_reserved_and_unassigned_ranges() {
    assert_eq!(Method::from_u32(0x000), Err(DecodeError::Reserved));
    assert_eq!(Method::from_u32(0x005), Err(DecodeError::Unassigned));
    assert_eq!(Method::from_u32(0x00D), Err(DecodeError::Unassigned));
    assert_eq!(Method::from_u32(0x0FF), Err(DecodeError::Unassigned));
    assert_eq!(Method::from_u32(0x100), Err(DecodeError::Reserved));
    assert_eq!(Method::from_u32(0x101), Err(DecodeError::Reserved));
    assert_eq!(Method::from_u32(0xFFF), Err(DecodeError::Reserved));
    assert_eq!(Method::from_u32(0x1000), Err(DecodeError::OutOfRange));
}

#[test]
fn method_to_hex_renders_code() {
    assert_eq!(Method::Binding.to_hex(), "0x001");
    assert_eq!(Method::ConnectionAttempt.to_hex(), "0x00C");
}

#[test]
fn attribute_type_round_trip_all_variants() {
    let variants = vec![
        AttributeType::MappedAddress,
        AttributeType::ResponseAddress,
        AttributeType::ChangeRequest,
        AttributeType::SourceAddress,
        AttributeType::ChangedAddress,
        AttributeType::UserName,
        AttributeType::Password,
        AttributeType::MessageIntegrity,
        AttributeType::ErrorCode,
        AttributeType::UnknownAttribute,
        AttributeType::ReflectedFrom,
        AttributeType::ChannelNumber,
        AttributeType::LifeTime,
        AttributeType::BandWidth,
        AttributeType::XorPeerAddress,
        AttributeType::Data,
        AttributeType::Realm,
        AttributeType::Nonce,
        AttributeType::XorRelayedAddress,
        AttributeType::RequestAddressFamily,
        AttributeType::EvenPort,
        AttributeType::RequestedTransport,
        AttributeType::DontFragment,
        AttributeType::AccessToken,
        AttributeType::XorMappedAddress,
        AttributeType::TimerVal,
        AttributeType::ReservationToken,
        AttributeType::Priority,
        AttributeType::UseCandidate,
        AttributeType::Padding,
        AttributeType::ResponsePort,
        AttributeType::ConnectionID,
        AttributeType::Software,
        AttributeType::AlternateServer,
        AttributeType::TransactionTransmitCounter,
        AttributeType::CacheTimeout,
        AttributeType::FingerPrint,
        AttributeType::ICEControlled,
        AttributeType::ICEControlling,
        AttributeType::ResponseOrigin,
        AttributeType::OtherAddress,
        AttributeType::ECNCheckStun,
        AttributeType::ThirdPartyAuthorization,
        AttributeType::MobilityTicket,
        AttributeType::CiscoStunFlowData,
        AttributeType::ENFFlowDescription,
        AttributeType::ENFNetworkStatus,
    ];
    for v in variants {
        assert_eq!(AttributeType::from_u32(v.to_u32()), Ok(v));
    }
}

#[test]
fn attribute_type_rejected_ranges() {
    assert_eq!(AttributeType::from_u32(0x0000), Err(DecodeError::Reserved));
    assert_eq!(AttributeType::from_u32(0x000E), Err(DecodeError::Reserved));
    assert_eq!(AttributeType::from_u32(0x8026), Err(DecodeError::Reserved));
    assert_eq!(AttributeType::from_u32(0x001C), Err(DecodeError::Unassigned));
    assert_eq!(AttributeType::from_u32(0x4000), Err(DecodeError::Unassigned));
    assert_eq!(AttributeType::from_u32(0xFFFF), Err(DecodeError::Unassigned));
    assert_eq!(AttributeType::from_u32(0x10000), Err(DecodeError::OutOfRange));
}

#[test]
fn attribute_type_from_bytes_reads_big_endian() {
    assert_eq!(
        AttributeType::from_bytes(&[0x80, 0x28]),
        Ok(AttributeType::FingerPrint)
    );
    assert_eq!(
        AttributeType::from_bytes(&[0x00, 0x01, 0xEE]),
        Ok(AttributeType::MappedAddress)
    );
}

#[test]
fn error_code_round_trip_all_variants() {
    let variants = vec![
        ErrorCode::TryAlternate,
        ErrorCode::BadRequest,
        ErrorCode::Unauthorized,
        ErrorCode::Forbidden,
        ErrorCode::MobilityForbidden,
        ErrorCode::UnknownAttribute,
        ErrorCode::IntegrityCheckFailure,
        ErrorCode::AllocationMismatch,
        ErrorCode::StaleNonce,
        ErrorCode::AddressFamilyNotSupported,
        ErrorCode::WrongCredentials,
        ErrorCode::UnsupportedTransportProtocol,
        ErrorCode::PeerAddressFamilyMismatch,
        ErrorCode::ConnectionAlreadyExists,
        ErrorCode::ConnectionTimeoutOrFailure,
        ErrorCode::AllocationQuotaReached,
        ErrorCode::RoleConflict,
        ErrorCode::ServerError,
        ErrorCode::InsufficientCapacity,
        ErrorCode::GlobalFailure,
    ];
    for v in variants {
        assert_eq!(ErrorCode::from_u32(v.to_u32()), Ok(v));
    }
}

#[test]
fn error_code_rejected_ranges() {
    assert_eq!(ErrorCode::from_u32(0), Err(DecodeError::Reserved));
    assert_eq!(ErrorCode::from_u32(299), Err(DecodeError::Reserved));
    assert_eq!(ErrorCode::from_u32(301), Err(DecodeError::Unassigned));
    assert_eq!(ErrorCode::from_u32(404), Err(DecodeError::Unassigned));
    assert_eq!(ErrorCode::from_u32(599), Err(DecodeError::Unassigned));
    assert_eq!(ErrorCode::from_u32(601), Err(DecodeError::Unassigned));
    assert_eq!(ErrorCode::from_u32(699), Err(DecodeError::Unassigned));
    assert_eq!(ErrorCode::from_u32(700), Err(DecodeError::OutOfRange));
    assert_eq!(ErrorCode::from_u32(431), Ok(ErrorCode::IntegrityCheckFailure));
    assert_eq!(ErrorCode::from_u32(500), Ok(ErrorCode::ServerError));
}

#[test]
fn family_tables() {
    assert_eq!(Family::from_u32(0x01), Ok(Family::Ipv4));
    assert_eq!(Family::from_u32(0x02), Ok(Family::Ipv6));
    assert_eq!(Family::from_u32(0x00), Err(DecodeError::BadFamily));
    assert_eq!(Family::from_u32(0x03), Err(DecodeError::BadFamily));
    assert_eq!(Family::Ipv4.to_u32(), 0x01);
    assert_eq!(Family::Ipv6.to_u32(), 0x02);
    for v in vec![Family::Ipv4, Family::Ipv6] {
        assert_eq!(Family::from_u32(v.to_u32()), Ok(v));
    }
}

#[test]
fn address_family_tables() {
    assert_eq!(AddressFamily::from_u32(0x00), Ok(AddressFamily::Unspecified));
    assert_eq!(AddressFamily::from_u32(0x01), Ok(AddressFamily::Ipv4));
    assert_eq!(AddressFamily::from_u32(0x02), Ok(AddressFamily::Ipv6));
    assert_eq!(AddressFamily::from_u32(0x03), Err(DecodeError::BadFamily));
    for v in vec![
        AddressFamily::Unspecified,
        AddressFamily::Ipv4,
        AddressFamily::Ipv6,
    ] {
        assert_eq!(AddressFamily::from_u32(v.to_u32()), Ok(v));
    }
}
