//! Whole STUN messages: a header followed by an ordered sequence of
//! type-length-value attributes, with the header's length field tied to
//! the attribute bytes it declares.

pub mod address;
pub mod address_family;
pub mod attribute;
pub mod error_code;
pub mod header;

use vstd::prelude::*;
use vstd::slice::slice_subrange;

use crate::error::DecodeError;
use crate::packet::attribute::{
    attr_bytes, attr_from_bytes, attr_wf, lemma_attr_parse_props, lemma_attr_round_trip_with_rest,
    Attribute, AttributeV,
};
use crate::packet::header::{
    bytes_to_hex_str, header_bytes, header_from_bytes, header_wf, lemma_header_parse_prefix,
    lemma_header_round_trip, Header, HeaderV,
};
use crate::wire::{be16, hex_chars_of};

verus! {

/// The concatenated wire bytes of an attribute sequence, in order.
pub open spec fn attrs_bytes(attrs: Seq<AttributeV>) -> Seq<u8>
    decreases attrs.len(),
{
    if attrs.len() == 0 {
        Seq::empty()
    } else {
        attr_bytes(attrs[0]) + attrs_bytes(attrs.drop_first())
    }
}

/// Attribute bytes concatenate the way attribute sequences do.
pub proof fn lemma_attrs_bytes_concat(s1: Seq<AttributeV>, s2: Seq<AttributeV>)
    ensures
        attrs_bytes(s1 + s2) == attrs_bytes(s1) + attrs_bytes(s2),
    decreases s1.len(),
{
    if s1.len() == 0 {
        assert(s1 + s2 =~= s2);
        assert(attrs_bytes(s1) + attrs_bytes(s2) =~= attrs_bytes(s2));
    } else {
        assert((s1 + s2).len() > 0);
        assert((s1 + s2)[0] == s1[0]);
        assert((s1 + s2).drop_first() =~= s1.drop_first() + s2);
        lemma_attrs_bytes_concat(s1.drop_first(), s2);
        assert(attr_bytes(s1[0]) + (attrs_bytes(s1.drop_first()) + attrs_bytes(s2)) =~= (attr_bytes(
            s1[0],
        ) + attrs_bytes(s1.drop_first())) + attrs_bytes(s2));
    }
}

/// Sequential parse of whole attributes out of a declared region: an
/// empty region holds no attributes; a leftover that cannot hold or
/// align with a whole attribute is a `LengthMismatch`; the first failing
/// attribute's error surfaces and nothing after it is interpreted.
pub open spec fn parse_attrs(region: Seq<u8>) -> Result<Seq<AttributeV>, DecodeError>
    decreases region.len(),
{
    if region.len() == 0 {
        Ok(Seq::empty())
    } else if region.len() < 4 {
        Err(DecodeError::LengthMismatch)
    } else {
        let len = be16(region, 2);
        if 4 + len > region.len() {
            Err(DecodeError::LengthMismatch)
        } else {
            match attr_from_bytes(region) {
                Err(e) => Err(e),
                Ok(a) => match parse_attrs(region.subrange(4 + len, region.len() as int)) {
                    Err(e) => Err(e),
                    Ok(rest) => Ok(seq![a] + rest),
                },
            }
        }
    }
}

/// Parsing a region that starts with a well-formed attribute's bytes
/// finds that attribute and goes on with the rest of the region.
pub proof fn lemma_parse_attrs_cons(a: AttributeV, rest: Seq<u8>)
    requires
        attr_wf(a),
    ensures
        parse_attrs(attr_bytes(a) + rest) == (match parse_attrs(rest) {
            Ok(s) => Ok::<Seq<AttributeV>, DecodeError>(seq![a] + s),
            Err(e) => Err::<Seq<AttributeV>, DecodeError>(e),
        }),
{
    let region = attr_bytes(a) + rest;
    let vlen = value_len_of(a);
    assert(region.len() == 4 + vlen + rest.len());
    assert(region[2] == attr_bytes(a)[2]);
    assert(region[3] == attr_bytes(a)[3]);
    assert(be16(region, 2) == (a.length as int / 256) * 256 + (a.length as int % 256));
    assert(be16(region, 2) == a.length as int);
    assert(4 + a.length <= region.len());
    lemma_attr_round_trip_with_rest(a, rest);
    assert(region.subrange(4 + a.length as int, region.len() as int) =~= rest);
}

/// The byte count of an attribute's value.
pub open spec fn value_len_of(a: AttributeV) -> int {
    crate::packet::attribute::value_bytes(a.value).len() as int
}

/// Every well-formed attribute sequence parses back out of its own
/// bytes.
pub proof fn lemma_parse_attrs_round_trip(attrs: Seq<AttributeV>)
    requires
        forall|i: int| 0 <= i < attrs.len() ==> attr_wf(#[trigger] attrs[i]),
    ensures
        parse_attrs(attrs_bytes(attrs)) == Ok::<Seq<AttributeV>, DecodeError>(attrs),
    decreases attrs.len(),
{
    if attrs.len() == 0 {
        assert(attrs =~= Seq::<AttributeV>::empty());
        assert(attrs_bytes(attrs).len() == 0);
    } else {
        let tail = attrs.drop_first();
        assert(attr_wf(attrs[0]));
        assert forall|i: int| 0 <= i < tail.len() implies attr_wf(#[trigger] tail[i]) by {
            assert(tail[i] == attrs[i + 1]);
        }
        lemma_parse_attrs_round_trip(tail);
        lemma_parse_attrs_cons(attrs[0], attrs_bytes(tail));
        assert(seq![attrs[0]] + tail =~= attrs);
        assert(attrs_bytes(attrs) == attr_bytes(attrs[0]) + attrs_bytes(tail));
    }
}

/// Whatever a region parses to is a well-formed attribute sequence
/// whose encoded length is the region's length.
pub proof fn lemma_parse_attrs_props(region: Seq<u8>)
    ensures
        parse_attrs(region) matches Ok(attrs) ==> (forall|i: int|
            0 <= i < attrs.len() ==> attr_wf(#[trigger] attrs[i])) && attrs_bytes(attrs).len()
            == region.len(),
    decreases region.len(),
{
    let r = parse_attrs(region);
    if r is Ok && region.len() != 0 {
        let len = be16(region, 2);
        let tail_region = region.subrange(4 + len, region.len() as int);
        lemma_parse_attrs_props(tail_region);
        lemma_attr_parse_props(region);
        let a = attr_from_bytes(region)->Ok_0;
        let rest = parse_attrs(tail_region)->Ok_0;
        let attrs = r->Ok_0;
        assert(attrs == seq![a] + rest);
        assert(attrs[0] == a);
        assert(attrs.drop_first() =~= rest);
        assert(attrs_bytes(attrs) == attr_bytes(a) + attrs_bytes(rest));
        assert(attr_bytes(a).len() == 4 + len);
        assert forall|i: int| 0 <= i < attrs.len() implies attr_wf(#[trigger] attrs[i]) by {
            if i > 0 {
                assert(attrs[i] == rest[i - 1]);
            }
        }
    }
}

/// A single attribute's sequence encodes to just that attribute's bytes.
pub proof fn lemma_attrs_bytes_singleton(a: AttributeV)
    ensures
        attrs_bytes(seq![a]) == attr_bytes(a),
{
    assert(seq![a].drop_first() =~= Seq::<AttributeV>::empty());
    assert(attrs_bytes(Seq::<AttributeV>::empty()) == Seq::<u8>::empty());
    assert(attrs_bytes(seq![a]) == attr_bytes(a) + Seq::<u8>::empty());
    assert(attr_bytes(a) + Seq::<u8>::empty() =~= attr_bytes(a));
}

/// A whole message: one header and an ordered attribute sequence.
#[derive(Debug, Clone, PartialEq)]
pub struct Packet {
    pub header: Header,
    pub attributes: Vec<Attribute>,
}

/// The mathematical model of a packet.
pub struct PacketV {
    pub header: HeaderV,
    pub attributes: Seq<AttributeV>,
}

impl View for Packet {
    type V = PacketV;

    open spec fn view(&self) -> PacketV {
        PacketV {
            header: self.header@,
            attributes: self.attributes@.map_values(|a: Attribute| a@),
        }
    }
}

/// A packet the codec can encode: a well-formed header, well-formed
/// attributes, and attribute bytes that fit the 16-bit length field.
pub open spec fn packet_wf(p: PacketV) -> bool {
    &&& header_wf(p.header)
    &&& forall|i: int| 0 <= i < p.attributes.len() ==> attr_wf(#[trigger] p.attributes[i])
    &&& attrs_bytes(p.attributes).len() <= 0xFFFF
}

/// The wire bytes of a packet.  The emitted header declares the actual
/// byte count of the attribute sequence, whatever length the held
/// header carries: the two can never diverge in produced output.
pub open spec fn packet_bytes(p: PacketV) -> Seq<u8> {
    header_bytes(HeaderV { length: attrs_bytes(p.attributes).len() as u16, ..p.header })
        + attrs_bytes(p.attributes)
}

/// What decoding a buffer as a whole message yields: the header first;
/// `TruncatedMessage` when the buffer cannot hold the length the header
/// declares; then exactly that many bytes parsed as whole attributes.
pub open spec fn packet_from_bytes(b: Seq<u8>) -> Result<PacketV, DecodeError> {
    match header_from_bytes(b) {
        Err(e) => Err(e),
        Ok(h) => if 20 + h.length > b.len() {
            Err(DecodeError::TruncatedMessage)
        } else {
            match parse_attrs(b.subrange(20, 20 + h.length as int)) {
                Err(e) => Err(e),
                Ok(attrs) => Ok(PacketV { header: h, attributes: attrs }),
            }
        },
    }
}

impl Packet {
    /// Whether this packet is well formed (see [`packet_wf`]).
    pub open spec fn wf(&self) -> bool {
        packet_wf(self@)
    }

    /// Assemble a packet around a header, with no attributes yet.
    pub fn new(header: Header) -> (r: Result<Self, DecodeError>)
        ensures
            r matches Ok(p) && p@ == (PacketV {
                header: header@,
                attributes: Seq::<AttributeV>::empty(),
            }),
    {
        let p = Packet { header, attributes: Vec::new() };
        proof {
            assert(p@.attributes =~= Seq::<AttributeV>::empty());
        }
        Ok(p)
    }

    /// Decode a whole message: the header, then the declared count of
    /// attribute bytes parsed sequentially as whole attributes.
    pub fn from_bytes(bytes: &[u8]) -> (r: Result<Self, DecodeError>)
        ensures
            match r {
                Ok(p) => packet_from_bytes(bytes@) == Ok::<PacketV, DecodeError>(p@) && p.wf(),
                Err(e) => packet_from_bytes(bytes@) == Err::<PacketV, DecodeError>(e),
            },
    {
        let header = match Header::from_bytes(bytes) {
            Ok(h) => h,
            Err(e) => return Err(e),
        };
        let declared: usize = header.length as usize;
        if bytes.len() < 20 + declared {
            return Err(DecodeError::TruncatedMessage);
        }
        let end: usize = 20 + declared;
        let ghost whole_region = bytes@.subrange(20, end as int);
        let mut attributes: Vec<Attribute> = Vec::new();
        let mut pos: usize = 20;
        proof {
            assert(attributes@.map_values(|a: Attribute| a@) =~= Seq::<AttributeV>::empty());
            assert(Seq::<AttributeV>::empty() + parse_attrs(whole_region)->Ok_0 =~= parse_attrs(
                whole_region,
            )->Ok_0);
        }
        while pos < end
            invariant
                20 <= pos <= end <= bytes@.len(),
                header_from_bytes(bytes@) == Ok::<HeaderV, DecodeError>(header@),
                end as int == 20 + header@.length,
                whole_region == bytes@.subrange(20, end as int),
                forall|i: int|
                    0 <= i < attributes@.len() ==> attr_wf((#[trigger] attributes@[i])@),
                (match parse_attrs(bytes@.subrange(pos as int, end as int)) {
                    Ok(s) => parse_attrs(whole_region) == Ok::<Seq<AttributeV>, DecodeError>(
                        attributes@.map_values(|a: Attribute| a@) + s,
                    ),
                    Err(e) => parse_attrs(whole_region) == Err::<Seq<AttributeV>, DecodeError>(e),
                }),
            decreases end - pos,
        {
            let ghost region = bytes@.subrange(pos as int, end as int);
            let rem = end - pos;
            if rem < 4 {
                proof {
                    assert(region.len() == rem);
                    assert(parse_attrs(region) == Err::<Seq<AttributeV>, DecodeError>(
                        DecodeError::LengthMismatch,
                    ));
                }
                return Err(DecodeError::LengthMismatch);
            }
            let alen: usize = (bytes[pos + 2] as usize) * 256 + (bytes[pos + 3] as usize);
            proof {
                assert(region[2] == bytes@[pos + 2]);
                assert(region[3] == bytes@[pos + 3]);
                assert(be16(region, 2) == alen as int);
            }
            if alen > rem - 4 {
                proof {
                    assert(4 + be16(region, 2) > region.len());
                    assert(parse_attrs(region) == Err::<Seq<AttributeV>, DecodeError>(
                        DecodeError::LengthMismatch,
                    ));
                }
                return Err(DecodeError::LengthMismatch);
            }
            let attr = match Attribute::from_bytes(slice_subrange(bytes, pos, end)) {
                Ok(a) => a,
                Err(e) => {
                    proof {
                        assert(parse_attrs(region) == Err::<Seq<AttributeV>, DecodeError>(e));
                    }
                    return Err(e);
                },
            };
            proof {
                lemma_attr_parse_props(region);
                assert(attr@.length == be16(region, 2));
                assert(attr@.length == alen);
            }
            let ghost old_acc = attributes@.map_values(|a: Attribute| a@);
            attributes.push(attr);
            pos = pos + 4 + alen;
            proof {
                let new_region = bytes@.subrange(pos as int, end as int);
                assert(new_region =~= region.subrange(4 + alen as int, region.len() as int));
                let new_acc = attributes@.map_values(|a: Attribute| a@);
                assert(new_acc =~= old_acc.push(attr@));
                assert(parse_attrs(region) == (match parse_attrs(new_region) {
                    Ok(rest) => Ok::<Seq<AttributeV>, DecodeError>(seq![attr@] + rest),
                    Err(e) => Err::<Seq<AttributeV>, DecodeError>(e),
                }));
                if parse_attrs(new_region) is Ok {
                    let rest = parse_attrs(new_region)->Ok_0;
                    assert(old_acc + (seq![attr@] + rest) =~= new_acc + rest);
                }
            }
        }
        proof {
            let empty_region = bytes@.subrange(pos as int, end as int);
            assert(empty_region.len() == 0);
            assert(parse_attrs(empty_region) == Ok::<Seq<AttributeV>, DecodeError>(Seq::empty()));
            let acc = attributes@.map_values(|a: Attribute| a@);
            assert(acc + Seq::<AttributeV>::empty() =~= acc);
            assert(parse_attrs(whole_region) == Ok::<Seq<AttributeV>, DecodeError>(acc));
            lemma_parse_attrs_props(whole_region);
        }
        Ok(Packet { header, attributes })
    }

    /// Encode this packet: the header with its length recomputed as the
    /// actual attribute byte count, then each attribute in order.
    pub fn into_bytes(&self) -> (r: Vec<u8>)
        requires
            self.wf(),
        ensures
            r@ == packet_bytes(self@),
    {
        let ghost all = self@.attributes;
        let mut total: u16 = 0;
        let mut i: usize = 0;
        while i < self.attributes.len()
            invariant
                i <= self.attributes@.len(),
                packet_wf(self@),
                all == self@.attributes,
                total as int == attrs_bytes(all.subrange(0, i as int)).len(),
            decreases self.attributes@.len() - i,
        {
            proof {
                lemma_attrs_bytes_step(all, i as int);
                lemma_attrs_bytes_prefix_bound(all, i + 1);
                assert(attr_wf(all[i as int]));
                assert(attr_bytes(all[i as int]).len() == 4 + all[i as int].length);
                assert(all[i as int] == self.attributes@[i as int]@);
            }
            total = total + 4 + self.attributes[i].length;
            i = i + 1;
        }
        proof {
            assert(all.subrange(0, all.len() as int) =~= all);
        }
        let header = Header {
            magic_code: self.header.magic_code,
            class: self.header.class,
            method: self.header.method,
            length: total,
            magic_cookie: self.header.magic_cookie,
            transaction_id: self.header.transaction_id.clone(),
        };
        let mut out = header.into_bytes();
        let ghost hv = header@;
        let mut j: usize = 0;
        while j < self.attributes.len()
            invariant
                j <= self.attributes@.len(),
                packet_wf(self@),
                all == self@.attributes,
                hv == (HeaderV { length: attrs_bytes(all).len() as u16, ..self@.header }),
                out@ =~= header_bytes(hv) + attrs_bytes(all.subrange(0, j as int)),
            decreases self.attributes@.len() - j,
        {
            proof {
                lemma_attrs_bytes_step(all, j as int);
                assert(all[j as int] == self.attributes@[j as int]@);
            }
            let mut ab = self.attributes[j].into_bytes();
            out.append(&mut ab);
            j = j + 1;
        }
        proof {
            assert(all.subrange(0, all.len() as int) =~= all);
            assert(out@ =~= packet_bytes(self@));
        }
        out
    }

    /// The hexadecimal rendering of this packet's encoded bytes.
    pub fn to_hex_string(&self) -> (s: String)
        requires
            self.wf(),
        ensures
            s@ == hex_chars_of(packet_bytes(self@)),
    {
        let bytes = self.into_bytes();
        bytes_to_hex_str(bytes.as_slice())
    }
}

/// One more attribute contributes exactly its own bytes.
proof fn lemma_attrs_bytes_step(attrs: Seq<AttributeV>, i: int)
    requires
        0 <= i < attrs.len(),
    ensures
        attrs_bytes(attrs.subrange(0, i + 1)) == attrs_bytes(attrs.subrange(0, i)) + attr_bytes(
            attrs[i],
        ),
{
    assert(attrs.subrange(0, i + 1) =~= attrs.subrange(0, i) + seq![attrs[i]]);
    lemma_attrs_bytes_concat(attrs.subrange(0, i), seq![attrs[i]]);
    assert(seq![attrs[i]].drop_first() =~= Seq::<AttributeV>::empty());
    assert(attrs_bytes(Seq::<AttributeV>::empty()) == Seq::<u8>::empty());
    assert(attrs_bytes(seq![attrs[i]]) == attr_bytes(attrs[i]) + Seq::<u8>::empty());
    assert(attr_bytes(attrs[i]) + Seq::<u8>::empty() =~= attr_bytes(attrs[i]));
}

/// A prefix of an attribute sequence never encodes to more bytes than
/// the whole sequence.
proof fn lemma_attrs_bytes_prefix_bound(attrs: Seq<AttributeV>, i: int)
    requires
        0 <= i <= attrs.len(),
    ensures
        attrs_bytes(attrs.subrange(0, i)).len() <= attrs_bytes(attrs).len(),
{
    assert(attrs =~= attrs.subrange(0, i) + attrs.subrange(i, attrs.len() as int));
    lemma_attrs_bytes_concat(attrs.subrange(0, i), attrs.subrange(i, attrs.len() as int));
}

/// Decoding the encoding of a well-formed packet yields the packet
/// back, with the header's length field holding the actual attribute
/// byte count.
pub proof fn lemma_packet_round_trip(p: PacketV)
    requires
        packet_wf(p),
    ensures
        packet_from_bytes(packet_bytes(p)) == Ok::<PacketV, DecodeError>(
            PacketV {
                header: HeaderV { length: attrs_bytes(p.attributes).len() as u16, ..p.header },
                attributes: p.attributes,
            },
        ),
{
    let total = attrs_bytes(p.attributes).len() as u16;
    let h2 = HeaderV { length: total, ..p.header };
    let b = packet_bytes(p);
    assert(header_wf(h2));
    lemma_header_round_trip(h2);
    assert(header_bytes(h2).len() == 20) by {
        crate::wire::lemma_bytes_of_hex_chars_of(h2.transaction_id);
    }
    lemma_header_parse_prefix(header_bytes(h2), attrs_bytes(p.attributes));
    assert(header_from_bytes(b) == Ok::<HeaderV, DecodeError>(h2));
    assert(20 + h2.length <= b.len());
    assert(b.subrange(20, 20 + h2.length as int) =~= attrs_bytes(p.attributes));
    lemma_parse_attrs_round_trip(p.attributes);
}

} // verus!
