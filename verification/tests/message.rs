use ice::error::DecodeError;
use ice::message::{Class, Error, Message, Method};

const SAMPLE_REQUEST: [u8; 20] = [
    0, 1, 0, 0, 33, 18, 164, 66, 70, 149, 250, 122, 253, 177, 191, 174, 164, 118, 181, 61,
];

#[test]
fn message_decode_sample_request() {
    let m = Message::from_bytes(&SAMPLE_REQUEST).unwrap();
    assert_eq!(m.magic_code, 0);
    assert_eq!(m.class, Class::Request);
    assert_eq!(m.method, Method::Binding);
    assert_eq!(m.length, 0);
    assert_eq!(m.magic_cookie, 0x2112A442);
    assert_eq!(m.transaction_id, "4695FA7AFDB1BFAEA476B53D");
}

#[test]
fn message_decode_short_input_is_bad_length() {
    let nineteen = [0u8; 19];
    assert_eq!(Message::from_bytes(&nineteen), Err(DecodeError::BadLength));
}

#[test]
fn message_decode_wrong_cookie() {
    let bytes = [0u8, 1, 0, 0, 0, 0, 0, 0, 1, 2, 3, 4, 5, 6, 7, 8, 9, 10, 11, 12];
    assert_eq!(Message::from_bytes(&bytes), Err(DecodeError::BadMagicCookie));
}

#[test]
fn message_hex_helper() {
    assert_eq!(Message::bytes_to_hex_str(&[0x0F, 0xA0]), "0FA0");
}

#[test]
fn message_error_table_is_the_error_code_table() {
    assert_eq!(Error::from_u32(300), Ok(Error::TryAlternate));
    assert_eq!(Error::from_u32(600), Ok(Error::GlobalFailure));
    assert_eq!(Error::from_u32(100), Err(DecodeError::Reserved));
    assert_eq!(Error::TryAlternate.to_u32(), 300);
}
