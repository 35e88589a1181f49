//! What a STUN client learns about the network path: the classical
//! taxonomy of network address translators, distinguished by comparing
//! server-reflexive addresses.  The sockets that carry the probes live
//! with the transport layer.

use vstd::prelude::*;

verus! {

/// The behaviour of a NAT between a client and the open network.
#[derive(Debug, Clone, Copy, PartialEq, Eq, Structural)]
pub enum Nat {
    /// One internal address maps to one external address for all peers.
    FullCone,
    /// External peers may answer only from an address already contacted.
    AddressRestrictedCone,
    /// External peers may answer only from an address and port already
    /// contacted.
    PortRestrictedCone,
    /// Each destination sees a mapping of its own.
    Symmetric,
}

} // verus!
