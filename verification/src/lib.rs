//! Wire codec for the Session Traversal Utilities for NAT (STUN) protocol:
//! the fixed 20-byte message header, type-length-value attributes, the
//! IANA registries of message classes, methods, attribute types and error
//! codes, and a minimal Binding-request responder.  Every decoder and
//! encoder carries a contract that pins its result down to the byte, and
//! the round-trip laws are proved as lemmas.
//!
//! Transport concerns (sockets, threads, URI resolution) are left to the
//! caller: every function here is a pure transformation of caller-owned
//! byte buffers and plain values.

pub mod constant;
pub mod client;
pub mod error;
pub mod message;
pub mod packet;
pub mod responder;
pub mod uri;
pub mod wire;
