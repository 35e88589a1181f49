use ice::constant::{STUNS_PORT, STUN_PORT};
use ice::error::DecodeError;
use ice::packet::address::{Address, Family};
use ice::packet::attribute::AttributeValue;
use ice::packet::header::Class;
use ice::packet::Packet;
use ice::responder::respond;
use ice::uri::{default_port, is_stun, is_stuns};

const SAMPLE_REQUEST: [u8; 20] = [
    0, 1, 0, 0, 33, 18, 164, 66, 70, 149, 250, 122, 253, 177, 191, 174, 164, 118, 181, 61,
];

fn peer() -> Address {
    Address::new(Family::Ipv4, 54321, vec![203, 0, 113, 7])
}

fn local() -> Address {
    Address::new(Family::Ipv4, 3478, vec![127, 0, 0, 1])
}

#[test]
fn respond_builds_success_response_with_mapped_address() {
    let out = respond(&SAMPLE_REQUEST, &peer(), &local()).unwrap();
    let p = Packet::from_bytes(&out).unwrap();
    assert_eq!(p.header.class, Class::SuccessResponse);
    assert_eq!(p.header.transaction_id, "4695FA7AFDB1BFAEA476B53D");
    assert_eq!(p.header.length, 12);
    assert_eq!(p.attributes.len(), 1);
    match &p.attributes[0].value {
        AttributeValue::MappedAddress(a) => {
            assert_eq!(a.family, Family::Ipv4);
            assert_eq!(a.port, 54321);
            assert_eq!(a.ip, vec![203, 0, 113, 7]);
        }
        other => panic!("expected a mapped address, got {:?}", other),
    }
}

#[test]
fn respond_then_reencode_is_byte_identical() {
    let out = respond(&SAMPLE_REQUEST, &peer(), &local()).unwrap();
    let p = Packet::from_bytes(&out).unwrap();
    assert_eq!(p.into_bytes(), out);
    let value_bytes = p.attributes[0].value.into_bytes();
    assert_eq!(&out[24..], &value_bytes[..]);
}

#[test]
fn respond_with_ipv6_peer() {
    let peer6 = Address::new(
        Family::Ipv6,
        443,
        vec![0x20, 0x01, 0x0D, 0xB8, 0, 0, 0, 0, 0, 0, 0, 0, 0, 0, 0, 2],
    );
    let out = respond(&SAMPLE_REQUEST, &peer6, &local()).unwrap();
    let p = Packet::from_bytes(&out).unwrap();
    assert_eq!(p.header.length, 24);
    match &p.attributes[0].value {
        AttributeValue::MappedAddress(a) => {
            assert_eq!(a.family, Family::Ipv6);
            assert_eq!(a.port, 443);
            assert_eq!(a.ip.len(), 16);
        }
        other => panic!("expected a mapped address, got {:?}", other),
    }
}

#[test]
fn respond_propagates_decode_failure() {
    assert_eq!(
        respond(&[0u8; 8], &peer(), &local()),
        Err(DecodeError::BadLength)
    );
    let bad_cookie = [0u8, 1, 0, 0, 0, 0, 0, 0, 1, 2, 3, 4, 5, 6, 7, 8, 9, 10, 11, 12];
    assert_eq!(
        respond(&bad_cookie, &peer(), &local()),
        Err(DecodeError::BadMagicCookie)
    );
}

#[test]
fn respond_echoes_non_binding_methods() {
    let mut request = SAMPLE_REQUEST;
    request[1] = 3;
    let out = respond(&request, &peer(), &local()).unwrap();
    let p = Packet::from_bytes(&out).unwrap();
    assert_eq!(p.header.class, Class::SuccessResponse);
    assert_eq!(p.header.method, ice::packet::header::Method::Allocate);
}

#[test]
fn uri_scheme_predicates() {
    assert!(is_stun("stun:example.org"));
    assert!(is_stun("stun:example.org:8000"));
    assert!(!is_stun("stuns:example.org"));
    assert!(!is_stun("http:example.org"));
    assert!(!is_stun("stun"));
    assert!(!is_stun(""));
    assert!(is_stuns("stuns:example.org"));
    assert!(!is_stuns("stun:example.org"));
    assert!(!is_stuns("stuns"));
}

#[test]
fn uri_default_ports() {
    assert_eq!(default_port("stun:example.org"), STUN_PORT);
    assert_eq!(default_port("stuns:example.org"), STUNS_PORT);
    assert_eq!(default_port("example.org"), STUN_PORT);
    assert_eq!(STUN_PORT, 3478);
    assert_eq!(STUNS_PORT, 5349);
}
