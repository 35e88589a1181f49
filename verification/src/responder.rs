//! The Binding responder: a pure transformation from raw request bytes
//! and the peer's observed transport address to raw response bytes.
//!
//! The responder decodes the request's header, echoes its method and
//! transaction identifier in a success response, and attaches a single
//! MAPPED-ADDRESS attribute carrying the peer's address.  There is no
//! other state: every request is answered the same way, and a request
//! whose header does not decode produces no response at all.

use vstd::prelude::*;
use vstd::slice::slice_to_vec;

use crate::error::DecodeError;
use crate::packet::address::{address_wf, family_addr_len, Address, AddressV, Family};
use crate::packet::attribute::{
    address_bytes, attr_bytes, attr_wf, Attribute, AttributeType, AttributeV, AttributeValue,
    AttributeValueV,
};
use crate::packet::header::{
    header_from_bytes, lemma_header_parse_wf, Class, Header, HeaderV,
};
use crate::packet::{
    attrs_bytes, lemma_attrs_bytes_singleton, lemma_packet_round_trip, packet_bytes,
    packet_from_bytes, packet_wf, Packet, PacketV,
};

verus! {

/// The MAPPED-ADDRESS attribute a responder builds for a peer address.
pub open spec fn mapped_address_attr(peer: AddressV) -> AttributeV {
    AttributeV {
        type_: AttributeType::MappedAddress,
        length: address_bytes(peer).len() as u16,
        value: AttributeValueV::MappedAddress(peer),
    }
}

/// What responding to a request yields: the request header's decode
/// failure, or the encoded success response that echoes the request's
/// method and transaction identifier and carries the peer's address in
/// a single MAPPED-ADDRESS attribute.
pub open spec fn respond_spec(request: Seq<u8>, peer: AddressV) -> Result<Seq<u8>, DecodeError> {
    match header_from_bytes(request) {
        Err(e) => Err(e),
        Ok(h) => Ok(
            packet_bytes(
                PacketV {
                    header: HeaderV { class: Class::SuccessResponse, ..h },
                    attributes: seq![mapped_address_attr(peer)],
                },
            ),
        ),
    }
}

/// Build the Binding success response for a request.
///
/// Succeeds exactly when the first 20 bytes of `request` decode as a
/// header; the decode failure is returned otherwise and nothing should
/// be sent in that case.  `local` is the server's own bound address; it
/// takes no part in the response bytes.  Only the Binding method is
/// meaningfully handled, but any method that decodes is echoed into a
/// structurally valid response.
#[allow(unused_variables)]
pub fn respond(request: &[u8], peer: &Address, local: &Address) -> (r: Result<
    Vec<u8>,
    DecodeError,
>)
    requires
        peer.wf(),
    ensures
        match r {
            Ok(out) => respond_spec(request@, peer@) == Ok::<Seq<u8>, DecodeError>(out@),
            Err(e) => respond_spec(request@, peer@) == Err::<Seq<u8>, DecodeError>(e),
        },
{
    let mut header = match Header::from_bytes(request) {
        Ok(h) => h,
        Err(e) => return Err(e),
    };
    header.set_class(Class::SuccessResponse);
    let value_len: u16 = match peer.family {
        Family::Ipv4 => 8,
        Family::Ipv6 => 20,
    };
    let peer_copy = Address {
        family: peer.family,
        port: peer.port,
        ip: slice_to_vec(peer.ip.as_slice()),
    };
    let attr = Attribute {
        type_: AttributeType::MappedAddress,
        length: value_len,
        value: AttributeValue::MappedAddress(peer_copy),
    };
    proof {
        assert(attr@ == mapped_address_attr(peer@));
    }
    let mut attributes: Vec<Attribute> = Vec::new();
    attributes.push(attr);
    let packet = Packet { header, attributes };
    proof {
        assert(packet@.attributes =~= seq![mapped_address_attr(peer@)]);
        lemma_attrs_bytes_singleton(mapped_address_attr(peer@));
        assert(attr_wf(mapped_address_attr(peer@)));
        assert(packet_wf(packet@));
    }
    Ok(packet.into_bytes())
}

/// A response the responder builds decodes back to exactly what was
/// encoded: a success response that echoes the request's method and
/// transaction identifier, declares the MAPPED-ADDRESS attribute's byte
/// count as its length, and whose sole attribute carries the peer's
/// address — and re-encoding that message reproduces the response bytes
/// byte for byte.
pub proof fn lemma_respond_round_trip(request: Seq<u8>, peer: AddressV)
    requires
        address_wf(peer),
        respond_spec(request, peer) is Ok,
    ensures
        ({
            let out = respond_spec(request, peer)->Ok_0;
            let req = header_from_bytes(request)->Ok_0;
            let resp = PacketV {
                header: HeaderV {
                    class: Class::SuccessResponse,
                    length: (8 + family_addr_len(peer.family)) as u16,
                    ..req
                },
                attributes: seq![mapped_address_attr(peer)],
            };
            packet_from_bytes(out) == Ok::<PacketV, DecodeError>(resp) && packet_bytes(resp) == out
        }),
{
    let req = header_from_bytes(request)->Ok_0;
    lemma_header_parse_wf(request);
    let a = mapped_address_attr(peer);
    let p = PacketV {
        header: HeaderV { class: Class::SuccessResponse, ..req },
        attributes: seq![a],
    };
    lemma_attrs_bytes_singleton(a);
    assert(attr_bytes(a).len() == 8 + family_addr_len(peer.family));
    assert(attrs_bytes(p.attributes).len() == 8 + family_addr_len(peer.family));
    assert(attr_wf(a));
    assert(packet_wf(p));
    lemma_packet_round_trip(p);
    let out = respond_spec(request, peer)->Ok_0;
    assert(out == packet_bytes(p));
    let resp = PacketV {
        header: HeaderV {
            class: Class::SuccessResponse,
            length: (8 + family_addr_len(peer.family)) as u16,
            ..req
        },
        attributes: seq![a],
    };
    assert(resp.header == (HeaderV {
        length: attrs_bytes(p.attributes).len() as u16,
        ..p.header
    }));
    assert(packet_bytes(resp) == packet_bytes(p));
}

} // verus!
