//! The fixed 20-byte STUN message header: the two-bit class, the
//! twelve-bit method, the attribute-byte length, the magic cookie and the
//! 96-bit transaction identifier.
//!
//! Wire layout, big-endian throughout:
//!
//! ```text
//! bits 0-1    : reserved, must be 0
//! bits 2-3    : class
//! bits 4-15   : method
//! bytes 2-3   : length of the attribute bytes that follow the header
//! bytes 4-7   : magic cookie, must be 0x2112A442
//! bytes 8-19  : transaction id (96 bits, opaque)
//! ```

use vstd::prelude::*;
use vstd::slice::slice_subrange;

use crate::constant::STUN_MAGIC_COOKIE;
use crate::error::DecodeError;
use crate::wire::{
    be16, be32, bytes_of_hex, hex_chars_of, hex_string, hex_val_of, is_hex_seq,
    lemma_bytes_of_hex_chars_of, lemma_hex_chars_of_bytes_of,
};

verus! {

/// The class of a message: the two bits that say whether it is a request,
/// an indication, or a success or failure response.
#[derive(Debug, Clone, Copy, PartialEq, Eq, Structural)]
pub enum Class {
    Request,
    Indication,
    SuccessResponse,
    FailureResponse,
}

/// The two-bit wire code of a message class.
pub open spec fn class_code(c: Class) -> int {
    match c {
        Class::Request => 0b00,
        Class::Indication => 0b01,
        Class::SuccessResponse => 0b10,
        Class::FailureResponse => 0b11,
    }
}

/// The class a numeric code denotes; every code above `0b11` lies outside
/// the two-bit domain.
pub open spec fn class_from_code(n: int) -> Result<Class, DecodeError> {
    if n == 0b00 {
        Ok(Class::Request)
    } else if n == 0b01 {
        Ok(Class::Indication)
    } else if n == 0b10 {
        Ok(Class::SuccessResponse)
    } else if n == 0b11 {
        Ok(Class::FailureResponse)
    } else {
        Err(DecodeError::OutOfRange)
    }
}

impl Class {
    /// The class a numeric code denotes.
    pub fn from_u32(n: u32) -> (r: Result<Self, DecodeError>)
        ensures
            r == class_from_code(n as int),
    {
        match n {
            0b00 => Ok(Class::Request),
            0b01 => Ok(Class::Indication),
            0b10 => Ok(Class::SuccessResponse),
            0b11 => Ok(Class::FailureResponse),
            _ => Err(DecodeError::OutOfRange),
        }
    }

    /// The two-bit wire code of this class.
    pub fn to_u32(&self) -> (r: u32)
        ensures
            r as int == class_code(*self),
            r < 4,
    {
        match *self {
            Class::Request => 0b00,
            Class::Indication => 0b01,
            Class::SuccessResponse => 0b10,
            Class::FailureResponse => 0b11,
        }
    }
}

/// Every class code maps back to the class it came from.
pub proof fn lemma_class_round_trip(c: Class)
    ensures
        class_from_code(class_code(c)) == Ok::<Class, DecodeError>(c),
{
}

/// Every code that decodes to a class encodes back to itself.
pub proof fn lemma_class_code_inverse(n: int)
    ensures
        class_from_code(n) matches Ok(c) ==> class_code(c) == n,
{
}

/// The method of a message: twelve bits of the message-type field.
///
/// The registry assigns `0x001..0x00C` (with `0x005` unassigned), leaves
/// `0x000` reserved, `0x00D..0x0FF` unassigned, and reserves
/// `0x100..0xFFF` for DTLS-SRTP multiplexing collision avoidance.
#[derive(Debug, Clone, Copy, PartialEq, Eq, Structural)]
pub enum Method {
    Binding,
    SharedSecret,
    Allocate,
    Refresh,
    Send,
    Data,
    CreatePermission,
    ChannelBind,
    Connect,
    ConnectionBind,
    ConnectionAttempt,
}

/// The twelve-bit wire code of a method.
pub open spec fn method_code(m: Method) -> int {
    match m {
        Method::Binding => 0x001,
        Method::SharedSecret => 0x002,
        Method::Allocate => 0x003,
        Method::Refresh => 0x004,
        Method::Send => 0x006,
        Method::Data => 0x007,
        Method::CreatePermission => 0x008,
        Method::ChannelBind => 0x009,
        Method::Connect => 0x00A,
        Method::ConnectionBind => 0x00B,
        Method::ConnectionAttempt => 0x00C,
    }
}

/// The method a numeric code denotes, or how the registry rejects the
/// code: `0x000` and the DTLS-SRTP range `0x100..0xFFF` are reserved,
/// `0x005` and `0x00D..0x0FF` are unassigned, and anything above `0xFFF`
/// lies outside the twelve-bit domain.
pub open spec fn method_from_code(n: int) -> Result<Method, DecodeError> {
    if n == 0x000 {
        Err(DecodeError::Reserved)
    } else if 0x100 <= n <= 0xFFF {
        Err(DecodeError::Reserved)
    } else if n == 0x005 || (0x00D <= n <= 0x0FF) {
        Err(DecodeError::Unassigned)
    } else if n == 0x001 {
        Ok(Method::Binding)
    } else if n == 0x002 {
        Ok(Method::SharedSecret)
    } else if n == 0x003 {
        Ok(Method::Allocate)
    } else if n == 0x004 {
        Ok(Method::Refresh)
    } else if n == 0x006 {
        Ok(Method::Send)
    } else if n == 0x007 {
        Ok(Method::Data)
    } else if n == 0x008 {
        Ok(Method::CreatePermission)
    } else if n == 0x009 {
        Ok(Method::ChannelBind)
    } else if n == 0x00A {
        Ok(Method::Connect)
    } else if n == 0x00B {
        Ok(Method::ConnectionBind)
    } else if n == 0x00C {
        Ok(Method::ConnectionAttempt)
    } else {
        Err(DecodeError::OutOfRange)
    }
}

impl Method {
    /// The method a numeric code denotes, classifying rejected codes as
    /// reserved, unassigned or out of the twelve-bit range.
    pub fn from_u32(n: u32) -> (r: Result<Self, DecodeError>)
        ensures
            r == method_from_code(n as int),
    {
        match n {
            0x000 => Err(DecodeError::Reserved),
            0x100..=0xFFF => Err(DecodeError::Reserved),
            0x005 => Err(DecodeError::Unassigned),
            0x00D..=0x0FF => Err(DecodeError::Unassigned),
            0x001 => Ok(Method::Binding),
            0x002 => Ok(Method::SharedSecret),
            0x003 => Ok(Method::Allocate),
            0x004 => Ok(Method::Refresh),
            0x006 => Ok(Method::Send),
            0x007 => Ok(Method::Data),
            0x008 => Ok(Method::CreatePermission),
            0x009 => Ok(Method::ChannelBind),
            0x00A => Ok(Method::Connect),
            0x00B => Ok(Method::ConnectionBind),
            0x00C => Ok(Method::ConnectionAttempt),
            _ => Err(DecodeError::OutOfRange),
        }
    }

    /// The twelve-bit wire code of this method.
    pub fn to_u32(&self) -> (r: u32)
        ensures
            r as int == method_code(*self),
            0 < r < 0x1000,
    {
        match *self {
            Method::Binding => 0x001,
            Method::SharedSecret => 0x002,
            Method::Allocate => 0x003,
            Method::Refresh => 0x004,
            Method::Send => 0x006,
            Method::Data => 0x007,
            Method::CreatePermission => 0x008,
            Method::ChannelBind => 0x009,
            Method::Connect => 0x00A,
            Method::ConnectionBind => 0x00B,
            Method::ConnectionAttempt => 0x00C,
        }
    }

    /// The wire code of this method rendered as `0x` and three uppercase
    /// hexadecimal digits.
    pub fn to_hex(&self) -> (r: String)
        ensures
            r@ == method_hex_chars(*self),
    {
        match *self {
            Method::Binding => "0x001".to_owned(),
            Method::SharedSecret => "0x002".to_owned(),
            Method::Allocate => "0x003".to_owned(),
            Method::Refresh => "0x004".to_owned(),
            Method::Send => "0x006".to_owned(),
            Method::Data => "0x007".to_owned(),
            Method::CreatePermission => "0x008".to_owned(),
            Method::ChannelBind => "0x009".to_owned(),
            Method::Connect => "0x00A".to_owned(),
            Method::ConnectionBind => "0x00B".to_owned(),
            Method::ConnectionAttempt => "0x00C".to_owned(),
        }
    }
}

/// The hexadecimal rendering `to_hex` produces for each method.
pub open spec fn method_hex_chars(m: Method) -> Seq<char> {
    match m {
        Method::Binding => "0x001"@,
        Method::SharedSecret => "0x002"@,
        Method::Allocate => "0x003"@,
        Method::Refresh => "0x004"@,
        Method::Send => "0x006"@,
        Method::Data => "0x007"@,
        Method::CreatePermission => "0x008"@,
        Method::ChannelBind => "0x009"@,
        Method::Connect => "0x00A"@,
        Method::ConnectionBind => "0x00B"@,
        Method::ConnectionAttempt => "0x00C"@,
    }
}

/// Every method code maps back to the method it came from.
pub proof fn lemma_method_round_trip(m: Method)
    ensures
        method_from_code(method_code(m)) == Ok::<Method, DecodeError>(m),
{
}

/// Every code that decodes to a method encodes back to itself.
pub proof fn lemma_method_code_inverse(n: int)
    ensures
        method_from_code(n) matches Ok(m) ==> method_code(m) == n,
{
}

/// The uppercase hexadecimal rendering of a byte slice, two digits per
/// byte; transaction identifiers are carried in this form.
pub fn bytes_to_hex_str(bytes: &[u8]) -> (s: String)
    ensures
        s@ == hex_chars_of(bytes@),
{
    hex_string(bytes)
}

/// A decoded 20-byte message header.
///
/// `transaction_id` carries the 12 identifier bytes as 24 uppercase
/// hexadecimal characters.
#[derive(Debug, Clone, PartialEq)]
pub struct Header {
    pub magic_code: u8,
    pub class: Class,
    pub method: Method,
    pub length: u16,
    pub magic_cookie: u32,
    pub transaction_id: String,
}

/// The mathematical model of a header: the same fields with the
/// transaction identifier as a character sequence.
pub struct HeaderV {
    pub magic_code: u8,
    pub class: Class,
    pub method: Method,
    pub length: u16,
    pub magic_cookie: u32,
    pub transaction_id: Seq<char>,
}

impl View for Header {
    type V = HeaderV;

    open spec fn view(&self) -> HeaderV {
        HeaderV {
            magic_code: self.magic_code,
            class: self.class,
            method: self.method,
            length: self.length,
            magic_cookie: self.magic_cookie,
            transaction_id: self.transaction_id@,
        }
    }
}

/// A header the codec itself could have produced: the reserved bits are
/// zero, the cookie is the magic constant, and the transaction identifier
/// is 24 uppercase hexadecimal characters.
pub open spec fn header_wf(h: HeaderV) -> bool {
    &&& h.magic_code == 0
    &&& h.magic_cookie == STUN_MAGIC_COOKIE
    &&& h.transaction_id.len() == 24
    &&& is_hex_seq(h.transaction_id)
}

/// The 20 bytes a well-formed header encodes to.
pub open spec fn header_bytes(h: HeaderV) -> Seq<u8> {
    seq![
        (class_code(h.class) * 16 + method_code(h.method) / 256) as u8,
        (method_code(h.method) % 256) as u8,
        (h.length as int / 256) as u8,
        (h.length as int % 256) as u8,
        (h.magic_cookie as int / 0x1000000) as u8,
        ((h.magic_cookie as int / 0x10000) % 256) as u8,
        ((h.magic_cookie as int / 0x100) % 256) as u8,
        (h.magic_cookie as int % 256) as u8,
    ] + bytes_of_hex(h.transaction_id)
}

/// What decoding a byte buffer as a header yields: the checks run in
/// order — length, reserved prefix bits, class, method, magic cookie —
/// and only the first 20 bytes are consumed.
pub open spec fn header_from_bytes(b: Seq<u8>) -> Result<HeaderV, DecodeError> {
    if b.len() < 20 {
        Err(DecodeError::BadLength)
    } else if b[0] as int / 64 != 0 {
        Err(DecodeError::BadPrefix)
    } else {
        let cc = (b[0] as int / 16) % 4;
        let mc = (b[0] as int % 16) * 256 + b[1] as int;
        match class_from_code(cc) {
            Err(e) => Err(e),
            Ok(class) => match method_from_code(mc) {
                Err(e) => Err(e),
                Ok(method) => if be32(b, 4) != STUN_MAGIC_COOKIE {
                    Err(DecodeError::BadMagicCookie)
                } else {
                    Ok(
                        HeaderV {
                            magic_code: 0,
                            class,
                            method,
                            length: be16(b, 2) as u16,
                            magic_cookie: STUN_MAGIC_COOKIE,
                            transaction_id: hex_chars_of(b.subrange(8, 20)),
                        },
                    )
                },
            },
        }
    }
}

impl Header {
    /// Whether this header is well formed (see [`header_wf`]).
    pub open spec fn wf(&self) -> bool {
        header_wf(self@)
    }

    /// Decode the first 20 bytes of `bytes` as a message header.
    ///
    /// Fails with `BadLength` on a buffer shorter than 20 bytes, with
    /// `BadPrefix` unless the two leading bits are zero, with the method
    /// table's classification for a reserved or unassigned method code,
    /// and with `BadMagicCookie` unless bytes 4..8 hold `0x2112A442`.
    pub fn from_bytes(bytes: &[u8]) -> (r: Result<Self, DecodeError>)
        ensures
            match r {
                Ok(h) => header_from_bytes(bytes@) == Ok::<HeaderV, DecodeError>(h@) && h.wf(),
                Err(e) => header_from_bytes(bytes@) == Err::<HeaderV, DecodeError>(e),
            },
    {
        if bytes.len() < 20 {
            return Err(DecodeError::BadLength);
        }
        let b0 = bytes[0];
        if b0 / 64 != 0 {
            return Err(DecodeError::BadPrefix);
        }
        let class_code_n: u32 = ((b0 / 16) % 4) as u32;
        let method_code_n: u32 = (b0 % 16) as u32 * 256 + bytes[1] as u32;
        let class = match Class::from_u32(class_code_n) {
            Ok(c) => c,
            Err(e) => return Err(e),
        };
        let method = match Method::from_u32(method_code_n) {
            Ok(m) => m,
            Err(e) => return Err(e),
        };
        let length: u16 = (bytes[2] as u16) * 256 + (bytes[3] as u16);
        let cookie: u32 = (bytes[4] as u32) * 0x1000000 + (bytes[5] as u32) * 0x10000 + (
        bytes[6] as u32) * 0x100 + (bytes[7] as u32);
        if cookie != STUN_MAGIC_COOKIE {
            return Err(DecodeError::BadMagicCookie);
        }
        let transaction_id = bytes_to_hex_str(slice_subrange(bytes, 8, 20));
        proof {
            lemma_hex_chars_of_bytes_of(bytes@.subrange(8, 20));
        }
        Ok(
            Header {
                magic_code: 0,
                class,
                method,
                length,
                magic_cookie: cookie,
                transaction_id,
            },
        )
    }

    /// Replace the declared attribute-byte length.
    pub fn set_length(&mut self, length: u16)
        ensures
            final(self)@ == (HeaderV { length, ..old(self)@ }),
    {
        self.length = length;
    }

    /// Replace the message class.
    pub fn set_class(&mut self, class: Class)
        ensures
            final(self)@ == (HeaderV { class, ..old(self)@ }),
    {
        self.class = class;
    }

    /// Replace the message method.
    pub fn set_method(&mut self, method: Method)
        ensures
            final(self)@ == (HeaderV { method, ..old(self)@ }),
    {
        self.method = method;
    }

    /// Replace the transaction identifier.
    pub fn set_transaction_id(&mut self, transaction_id: String)
        ensures
            final(self)@ == (HeaderV { transaction_id: transaction_id@, ..old(self)@ }),
    {
        self.transaction_id = transaction_id;
    }

    /// Encode this header to its 20 wire bytes, the inverse of
    /// [`Header::from_bytes`] on well-formed headers.
    pub fn into_bytes(&self) -> (r: Vec<u8>)
        requires
            self.wf(),
        ensures
            r@ == header_bytes(self@),
    {
        let mut bytes: Vec<u8> = Vec::new();
        let class_c = self.class.to_u32();
        let method_c = self.method.to_u32();
        bytes.push((class_c * 16 + method_c / 256) as u8);
        bytes.push((method_c % 256) as u8);
        bytes.push((self.length / 256) as u8);
        bytes.push((self.length % 256) as u8);
        bytes.push((self.magic_cookie / 0x1000000) as u8);
        bytes.push(((self.magic_cookie / 0x10000) % 256) as u8);
        bytes.push(((self.magic_cookie / 0x100) % 256) as u8);
        bytes.push((self.magic_cookie % 256) as u8);
        let tid = self.transaction_id.as_str();
        let mut i: usize = 0;
        while i < 12
            invariant
                i <= 12,
                tid@ == self@.transaction_id,
                header_wf(self@),
                bytes@ =~= header_bytes(self@).subrange(0, 8 + i as int),
            decreases 12 - i,
        {
            let c_hi = tid.get_char(2 * i);
            let c_lo = tid.get_char(2 * i + 1);
            let b = hex_val_of(c_hi) * 16 + hex_val_of(c_lo);
            bytes.push(b);
            i = i + 1;
            proof {
                assert(bytes_of_hex(self@.transaction_id)[i - 1] == b);
                assert(bytes@ =~= header_bytes(self@).subrange(0, 8 + i as int));
            }
        }
        proof {
            assert(header_bytes(self@).subrange(0, 20) =~= header_bytes(self@));
        }
        bytes
    }
}

/// Any buffer shorter than the fixed 20-byte header is rejected as
/// `BadLength`, whatever it holds.
pub proof fn lemma_short_buffer_bad_length(b: Seq<u8>)
    requires
        b.len() < 20,
    ensures
        header_from_bytes(b) == Err::<HeaderV, DecodeError>(DecodeError::BadLength),
{
}

/// A 20-byte buffer that begins `0, 1, 0, 0` and holds zeros where the
/// magic cookie belongs is rejected for its cookie, whatever its last
/// 12 bytes hold.
pub proof fn lemma_zero_cookie_rejected(b: Seq<u8>)
    requires
        b.len() >= 20,
        b[0] == 0,
        b[1] == 1,
        b[4] == 0,
        b[5] == 0,
        b[6] == 0,
        b[7] == 0,
    ensures
        header_from_bytes(b) == Err::<HeaderV, DecodeError>(DecodeError::BadMagicCookie),
{
}

/// Whatever a buffer decodes to is a well-formed header.
pub proof fn lemma_header_parse_wf(b: Seq<u8>)
    ensures
        header_from_bytes(b) matches Ok(h) ==> header_wf(h),
{
    if header_from_bytes(b) is Ok {
        lemma_hex_chars_of_bytes_of(b.subrange(8, 20));
    }
}

/// Header decoding consumes only the first 20 bytes: bytes that follow
/// them cannot change the outcome.
pub proof fn lemma_header_parse_prefix(hb: Seq<u8>, rest: Seq<u8>)
    requires
        hb.len() == 20,
    ensures
        header_from_bytes(hb + rest) == header_from_bytes(hb),
{
    let b = hb + rest;
    assert(b[0] == hb[0]);
    assert(b[1] == hb[1]);
    assert(be16(b, 2) == be16(hb, 2));
    assert(be32(b, 4) == be32(hb, 4));
    assert(b.subrange(8, 20) =~= hb.subrange(8, 20));
}

/// Decoding the encoding of any well-formed header yields the header
/// back: the header codec round-trips.
pub proof fn lemma_header_round_trip(h: HeaderV)
    requires
        header_wf(h),
    ensures
        header_from_bytes(header_bytes(h)) == Ok::<HeaderV, DecodeError>(h),
{
    let b = header_bytes(h);
    lemma_bytes_of_hex_chars_of(h.transaction_id);
    assert(b.len() == 20);
    let cc = class_code(h.class);
    let mc = method_code(h.method);
    assert(0 <= cc < 4);
    assert(0 < mc < 0x1000);
    let b0 = cc * 16 + mc / 256;
    assert(0 <= mc / 256 < 16);
    assert(b[0] == b0 as u8);
    assert(b0 / 64 == 0);
    assert((b0 / 16) % 4 == cc);
    assert((b0 % 16) == mc / 256);
    assert(b[1] == (mc % 256) as u8);
    assert((b0 % 16) * 256 + (mc % 256) == mc);
    lemma_class_round_trip(h.class);
    lemma_method_round_trip(h.method);
    assert(h.magic_cookie == STUN_MAGIC_COOKIE);
    assert(b[4] == 0x21 && b[5] == 0x12 && b[6] == 0xA4 && b[7] == 0x42);
    assert(be32(b, 4) == STUN_MAGIC_COOKIE);
    assert(be16(b, 2) == h.length as int);
    assert(b.subrange(8, 20) =~= bytes_of_hex(h.transaction_id));
    assert(hex_chars_of(b.subrange(8, 20)) == h.transaction_id);
    let decoded = header_from_bytes(b);
    assert(decoded matches Ok(d) && d == h);
}

} // verus!
