//! The flat face of the codec: every registry table under one roof, and
//! `Message`, the 20-byte header decoded into a record with word-width
//! numeric fields.  The tables are the same ones the `packet` modules
//! define; this module only binds them under its own names.

use vstd::prelude::*;

use crate::error::DecodeError;
use crate::packet::header;
use crate::packet::header::{header_from_bytes, Header, HeaderV};
use crate::wire::hex_chars_of;

pub use crate::packet::address_family::AddressFamily;
pub use crate::packet::attribute::AttributeType as Attribute;
pub use crate::packet::error_code::ErrorCode as Error;
pub use crate::packet::header::{Class, Method};

verus! {

/// A message header on its own, with the numeric fields widened to
/// `u32` and the transaction identifier as uppercase hexadecimal.
#[derive(Debug, Clone, PartialEq)]
pub struct Message {
    pub magic_code: u32,
    pub class: Class,
    pub method: Method,
    pub length: u32,
    pub magic_cookie: u32,
    pub transaction_id: String,
}

/// The mathematical model of a message.
pub struct MessageV {
    pub magic_code: u32,
    pub class: Class,
    pub method: Method,
    pub length: u32,
    pub magic_cookie: u32,
    pub transaction_id: Seq<char>,
}

impl View for Message {
    type V = MessageV;

    open spec fn view(&self) -> MessageV {
        MessageV {
            magic_code: self.magic_code,
            class: self.class,
            method: self.method,
            length: self.length,
            magic_cookie: self.magic_cookie,
            transaction_id: self.transaction_id@,
        }
    }
}

/// The message a decoded header widens to.
pub open spec fn message_of(h: HeaderV) -> MessageV {
    MessageV {
        magic_code: h.magic_code as u32,
        class: h.class,
        method: h.method,
        length: h.length as u32,
        magic_cookie: h.magic_cookie,
        transaction_id: h.transaction_id,
    }
}

impl Message {
    /// The uppercase hexadecimal rendering of a byte slice, two digits
    /// per byte.
    pub fn bytes_to_hex_str(bytes: &[u8]) -> (s: String)
        ensures
            s@ == hex_chars_of(bytes@),
    {
        header::bytes_to_hex_str(bytes)
    }

    /// Decode the first 20 bytes of `bytes` as a message header; the
    /// checks, their order and their failures are those of
    /// [`Header::from_bytes`].
    pub fn from_bytes(bytes: &[u8]) -> (r: Result<Message, DecodeError>)
        ensures
            match r {
                Ok(m) => header_from_bytes(bytes@) matches Ok(h) && m@ == message_of(h),
                Err(e) => header_from_bytes(bytes@) == Err::<HeaderV, DecodeError>(e),
            },
    {
        match Header::from_bytes(bytes) {
            Ok(h) => Ok(
                Message {
                    magic_code: h.magic_code as u32,
                    class: h.class,
                    method: h.method,
                    length: h.length as u32,
                    magic_cookie: h.magic_cookie,
                    transaction_id: h.transaction_id,
                },
            ),
            Err(e) => Err(e),
        }
    }
}

} // verus!
