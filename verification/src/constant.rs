//! Protocol constants fixed by RFC 5389 and the TURN companion RFCs.

use vstd::prelude::*;

verus! {

/// Default port of the `stun` URI scheme (RFC 5389, both TCP and UDP).
pub const STUN_PORT: u16 = 3478;

/// Default port of the `stuns` (STUN over TLS) URI scheme.
pub const STUNS_PORT: u16 = 5349;

/// Fixed 32-bit value that distinguishes STUN messages from other traffic
/// sharing a port; bytes 4..8 of every header must hold it, big-endian.
pub const STUN_MAGIC_COOKIE: u32 = 0x2112A442;

/// Value XORed into a CRC-32 when computing the FINGERPRINT attribute.
pub const STUN_FINGERPRINT_XOR_VALUE: u32 = 0x5354554E;

/// Default TURN allocation lifetime in seconds, unless refreshed.
pub const TURN_DEFAULT_ALLOCATION_LIFETIME: u32 = 600;

/// Maximum TURN allocation lifetime in seconds, unless refreshed.
pub const TURN_MAX_ALLOCATION_LIFETIME: u32 = 3600;

/// Default TURN permission lifetime in seconds, unless refreshed.
pub const TURN_DEFAULT_PERMISSION_LIFETIME: u32 = 300;

/// Default TURN channel lifetime in seconds, unless refreshed.
pub const TURN_DEFAULT_CHANNEL_LIFETIME: u32 = 600;

/// Lifetime of a TURN nonce in seconds.
pub const TURN_DEFAULT_NONCE_LIFETIME: u32 = 3600;

/// Lifetime of a TURN token in seconds.
pub const TURN_DEFAULT_TOKEN_LIFETIME: u32 = 60;

/// Timeout in seconds of a TURN TCP relay that receives no ConnectionBind.
pub const TURN_DEFAULT_TCP_RELAY_TIMEOUT: u32 = 30;

/// Timeout in seconds of a TURN TCP connect.
pub const TURN_DEFAULT_TCP_CONNECT_TIMEOUT: u32 = 30;

} // verus!
