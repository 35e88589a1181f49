use ice::constant::STUN_MAGIC_COOKIE;
use ice::error::DecodeError;
use ice::packet::address::{Address, Family};
use ice::packet::attribute::{Attribute, AttributeType, AttributeValue};
use ice::packet::error_code::ErrorCode;
use ice::packet::header::{bytes_to_hex_str, Class, Header, Method};
use ice::packet::Packet;

const SAMPLE_REQUEST: [u8; 20] = [
    0, 1, 0, 0, 33, 18, 164, 66, 70, 149, 250, 122, 253, 177, 191, 174, 164, 118, 181, 61,
];

#[test]
fn header_decode_sample_request() {
    let h = Header::from_bytes(&SAMPLE_REQUEST).unwrap();
    assert_eq!(h.magic_code, 0);
    assert_eq!(h.class, Class::Request);
    assert_eq!(h.method, Method::Binding);
    assert_eq!(h.length, 0);
    assert_eq!(h.magic_cookie, STUN_MAGIC_COOKIE);
    assert_eq!(h.transaction_id, "4695FA7AFDB1BFAEA476B53D");
}

#[test]
fn header_decode_short_input_is_bad_length() {
    assert_eq!(Header::from_bytes(&[]), Err(DecodeError::BadLength));
    assert_eq!(Header::from_bytes(&[0, 1, 0, 0]), Err(DecodeError::BadLength));
    let nineteen = [0u8; 19];
    assert_eq!(Header::from_bytes(&nineteen), Err(DecodeError::BadLength));
}

#[test]
fn header_decode_wrong_cookie_is_bad_magic_cookie() {
    let bytes = [0u8, 1, 0, 0, 0, 0, 0, 0, 1, 2, 3, 4, 5, 6, 7, 8, 9, 10, 11, 12];
    assert_eq!(Header::from_bytes(&bytes), Err(DecodeError::BadMagicCookie));
}

#[test]
fn header_decode_nonzero_prefix_is_bad_prefix() {
    let mut bytes = SAMPLE_REQUEST;
    bytes[0] |= 0b1100_0000;
    assert_eq!(Header::from_bytes(&bytes), Err(DecodeError::BadPrefix));
}

#[test]
fn header_decode_reserved_method() {
    let mut bytes = SAMPLE_REQUEST;
    bytes[0] = 0;
    bytes[1] = 0;
    assert_eq!(Header::from_bytes(&bytes), Err(DecodeError::Reserved));
}

#[test]
fn header_decode_unassigned_method() {
    let mut bytes = SAMPLE_REQUEST;
    bytes[0] = 0;
    bytes[1] = 5;
    assert_eq!(Header::from_bytes(&bytes), Err(DecodeError::Unassigned));
}

#[test]
fn header_decode_ignores_trailing_bytes() {
    let mut bytes = SAMPLE_REQUEST.to_vec();
    bytes.extend_from_slice(&[0xDE, 0xAD]);
    let h = Header::from_bytes(&bytes).unwrap();
    assert_eq!(h.class, Class::Request);
    assert_eq!(h.method, Method::Binding);
}

#[test]
fn header_encode_decode_round_trip() {
    let h = Header {
        magic_code: 0,
        class: Class::FailureResponse,
        method: Method::ChannelBind,
        length: 0x1234,
        magic_cookie: STUN_MAGIC_COOKIE,
        transaction_id: String::from("00FF10A0B1C2D3E4F5061728"),
    };
    let bytes = h.into_bytes();
    assert_eq!(bytes.len(), 20);
    let back = Header::from_bytes(&bytes).unwrap();
    assert_eq!(back, h);
}

#[test]
fn header_encode_sample_reproduces_bytes() {
    let h = Header::from_bytes(&SAMPLE_REQUEST).unwrap();
    assert_eq!(h.into_bytes(), SAMPLE_REQUEST.to_vec());
}

#[test]
fn header_setters_update_fields() {
    let mut h = Header::from_bytes(&SAMPLE_REQUEST).unwrap();
    h.set_class(Class::SuccessResponse);
    h.set_method(Method::Allocate);
    h.set_length(24);
    h.set_transaction_id(String::from("AAAAAAAAAAAAAAAAAAAAAAAA"));
    assert_eq!(h.class, Class::SuccessResponse);
    assert_eq!(h.method, Method::Allocate);
    assert_eq!(h.length, 24);
    assert_eq!(h.transaction_id, "AAAAAAAAAAAAAAAAAAAAAAAA");
}

#[test]
fn bytes_to_hex_str_renders_uppercase_pairs() {
    assert_eq!(bytes_to_hex_str(&[]), "");
    assert_eq!(bytes_to_hex_str(&[0x00]), "00");
    assert_eq!(bytes_to_hex_str(&[0xAB, 0x01, 0xFF]), "AB01FF");
    assert_eq!(bytes_to_hex_str(&[0x21, 0x12, 0xA4, 0x42]), "2112A442");
}

#[test]
fn address_value_decodes_ipv4() {
    let value = [0u8, 0x01, 0xD4, 0x31, 203, 0, 113, 7];
    let v = AttributeValue::from_bytes(AttributeType::MappedAddress, &value).unwrap();
    match v {
        AttributeValue::MappedAddress(a) => {
            assert_eq!(a.family, Family::Ipv4);
            assert_eq!(a.port, 54321);
            assert_eq!(a.ip, vec![203, 0, 113, 7]);
        }
        other => panic!("expected a mapped address, got {:?}", other),
    }
}

#[test]
fn address_value_decodes_ipv6() {
    let mut value = vec![0u8, 0x02, 0x00, 0x50];
    value.extend_from_slice(&[0x20, 0x01, 0x0D, 0xB8, 0, 0, 0, 0, 0, 0, 0, 0, 0, 0, 0, 1]);
    let v = AttributeValue::from_bytes(AttributeType::XorPeerAddress, &value).unwrap();
    match v {
        AttributeValue::XorPeerAddress(a) => {
            assert_eq!(a.family, Family::Ipv6);
            assert_eq!(a.port, 80);
            assert_eq!(a.ip.len(), 16);
        }
        other => panic!("expected a peer address, got {:?}", other),
    }
}

#[test]
fn address_value_family_mismatch() {
    let mut value = vec![0u8, 0x01, 0x00, 0x50];
    value.extend_from_slice(&[0u8; 16]);
    assert_eq!(
        AttributeValue::from_bytes(AttributeType::MappedAddress, &value),
        Err(DecodeError::AddressLengthMismatch)
    );
}

#[test]
fn address_value_bad_family_byte() {
    let value = [0u8, 0x03, 0x00, 0x50, 1, 2, 3, 4];
    assert_eq!(
        AttributeValue::from_bytes(AttributeType::MappedAddress, &value),
        Err(DecodeError::BadFamily)
    );
}

#[test]
fn address_value_too_short() {
    assert_eq!(
        AttributeValue::from_bytes(AttributeType::MappedAddress, &[0, 1]),
        Err(DecodeError::BadLength)
    );
}

#[test]
fn address_value_encodes_layout() {
    let addr = Address::new(Family::Ipv4, 54321, vec![203, 0, 113, 7]);
    let v = AttributeValue::MappedAddress(addr);
    assert_eq!(v.into_bytes(), vec![0, 0x01, 0xD4, 0x31, 203, 0, 113, 7]);
}

#[test]
fn error_code_value_round_trip() {
    let v = AttributeValue::ErrorCode(ErrorCode::ServerError);
    let bytes = v.into_bytes();
    assert_eq!(bytes, vec![0, 0, 5, 0]);
    let back = AttributeValue::from_bytes(AttributeType::ErrorCode, &bytes).unwrap();
    assert_eq!(back, v);
}

#[test]
fn error_code_value_combines_class_and_number() {
    let bytes = [0u8, 0, 4, 20];
    let v = AttributeValue::from_bytes(AttributeType::ErrorCode, &bytes).unwrap();
    assert_eq!(v, AttributeValue::ErrorCode(ErrorCode::UnknownAttribute));
}

#[test]
fn error_code_value_rejects_unknown_code() {
    let bytes = [0u8, 0, 3, 1];
    assert_eq!(
        AttributeValue::from_bytes(AttributeType::ErrorCode, &bytes),
        Err(DecodeError::BadErrorCode)
    );
}

#[test]
fn opaque_value_is_carried_verbatim() {
    let payload = [1u8, 2, 3, 4, 5];
    let v = AttributeValue::from_bytes(AttributeType::UserName, &payload).unwrap();
    assert_eq!(v, AttributeValue::UserName(payload.to_vec()));
    assert_eq!(v.into_bytes(), payload.to_vec());
    let w = AttributeValue::from_bytes(AttributeType::LifeTime, &payload).unwrap();
    assert_eq!(w, AttributeValue::UnknownAttribute(payload.to_vec()));
}

#[test]
fn attribute_tlv_round_trip() {
    let tlv = [0x00u8, 0x01, 0x00, 0x08, 0, 0x01, 0xD4, 0x31, 203, 0, 113, 7];
    let attr = Attribute::from_bytes(&tlv).unwrap();
    assert_eq!(attr.type_, AttributeType::MappedAddress);
    assert_eq!(attr.length, 8);
    assert_eq!(attr.into_bytes(), tlv.to_vec());
}

#[test]
fn attribute_truncated_value() {
    let tlv = [0x00u8, 0x01, 0x00, 0x08, 0, 0x01, 0xD4];
    assert_eq!(Attribute::from_bytes(&tlv), Err(DecodeError::TruncatedMessage));
    assert_eq!(Attribute::from_bytes(&[0x00]), Err(DecodeError::TruncatedMessage));
}

#[test]
fn attribute_reserved_type_code() {
    let tlv = [0x00u8, 0x00, 0x00, 0x00];
    assert_eq!(Attribute::from_bytes(&tlv), Err(DecodeError::Reserved));
}

#[test]
fn packet_decode_header_and_one_attribute() {
    let mut bytes = Vec::new();
    bytes.extend_from_slice(&[0, 1, 0, 12, 33, 18, 164, 66]);
    bytes.extend_from_slice(&[9, 9, 9, 9, 9, 9, 9, 9, 9, 9, 9, 9]);
    bytes.extend_from_slice(&[0x00, 0x01, 0x00, 0x08, 0, 0x01, 0xD4, 0x31, 203, 0, 113, 7]);
    let p = Packet::from_bytes(&bytes).unwrap();
    assert_eq!(p.header.length, 12);
    assert_eq!(p.attributes.len(), 1);
    assert_eq!(p.attributes[0].type_, AttributeType::MappedAddress);
    assert_eq!(p.into_bytes(), bytes);
}

#[test]
fn packet_decode_empty_attribute_region() {
    let p = Packet::from_bytes(&SAMPLE_REQUEST).unwrap();
    assert_eq!(p.attributes.len(), 0);
    assert_eq!(p.into_bytes(), SAMPLE_REQUEST.to_vec());
}

#[test]
fn packet_truncated_when_buffer_short_of_declared_length() {
    let mut bytes = SAMPLE_REQUEST.to_vec();
    bytes[3] = 12;
    assert_eq!(Packet::from_bytes(&bytes), Err(DecodeError::TruncatedMessage));
}

#[test]
fn packet_length_mismatch_when_region_misaligned() {
    let mut bytes = SAMPLE_REQUEST.to_vec();
    bytes[3] = 2;
    bytes.extend_from_slice(&[0xAA, 0xBB]);
    assert_eq!(Packet::from_bytes(&bytes), Err(DecodeError::LengthMismatch));
}

#[test]
fn packet_length_mismatch_when_attribute_overruns_region() {
    let mut bytes = SAMPLE_REQUEST.to_vec();
    bytes[3] = 8;
    bytes.extend_from_slice(&[0x00, 0x01, 0x00, 0x08, 0, 0x01, 0xD4, 0x31]);
    assert_eq!(Packet::from_bytes(&bytes), Err(DecodeError::LengthMismatch));
}

#[test]
fn packet_encode_recomputes_header_length() {
    let mut header = Header::from_bytes(&SAMPLE_REQUEST).unwrap();
    header.set_length(999);
    let mut packet = Packet::new(header).unwrap();
    let addr = Address::new(Family::Ipv4, 8080, vec![192, 0, 2, 1]);
    packet.attributes.push(Attribute {
        type_: AttributeType::MappedAddress,
        length: 8,
        value: AttributeValue::MappedAddress(addr),
    });
    let bytes = packet.into_bytes();
    assert_eq!(bytes.len(), 32);
    assert_eq!(bytes[2], 0);
    assert_eq!(bytes[3], 12);
    let back = Packet::from_bytes(&bytes).unwrap();
    assert_eq!(back.header.length, 12);
}

#[test]
fn packet_to_hex_string_matches_bytes() {
    let p = Packet::from_bytes(&SAMPLE_REQUEST).unwrap();
    assert_eq!(p.to_hex_string(), "000100002112A4424695FA7AFDB1BFAEA476B53D");
}
