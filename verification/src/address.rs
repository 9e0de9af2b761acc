//! Multiaddresses: where the peer listens, what it advertises, and under which
//! addresses it files other peers.

use libp2p::multiaddr::{Multiaddr, Protocol};
use libp2p::PeerId;
use vstd::prelude::*;

use crate::settings::{PORT_QUIC, PORT_WEBRTC};

verus! {

/// `libp2p::multiaddr::Multiaddr`, a sequence of protocols; see [`address_parts`].
#[verifier::external_type_specification]
#[verifier::external_body]
pub struct ExMultiaddr(libp2p::multiaddr::Multiaddr);

/// `libp2p::multiaddr::Protocol`, one component of a multiaddress; see
/// [`protocol_part`].
#[verifier::external_type_specification]
#[verifier::external_body]
pub struct ExProtocol<'a>(libp2p::multiaddr::Protocol<'a>);

/// `libp2p::PeerId`, carried through unread.
#[verifier::external_type_specification]
#[verifier::external_body]
pub struct ExPeerId(libp2p::PeerId);

/// An IP address as the number that its octets spell, most significant first.
#[derive(Clone, Copy, Debug, PartialEq, Eq, Structural)]
pub enum IpAddress {
    V4(u32),
    V6(u128),
}

/// The components that this crate itself puts into an address.
pub enum Segment {
    Ip(IpAddress),
    Udp(u16),
    QuicV1,
    WebRtcDirect,
    P2p(PeerId),
}

/// One component of a multiaddress: a segment, or the binary encoding of any
/// other protocol.
pub enum Part {
    Segment(Segment),
    Other(Seq<u8>),
}

/// The components of an address, first to last.
pub uninterp spec fn address_parts(address: Multiaddr) -> Seq<Part>;

/// The component that a protocol value stands for.
pub uninterp spec fn protocol_part(protocol: Protocol<'static>) -> Part;

/// `Multiaddr::with` appends the protocol and changes nothing before it.
pub assume_specification[ Multiaddr::with ](address: Multiaddr, p: Protocol<'_>) -> (res: Multiaddr)
    ensures
        address_parts(res) == address_parts(address).push(protocol_part(p)),
;

/// `Multiaddr::push` appends the protocol and changes nothing before it.
pub assume_specification[ Multiaddr::push ](address: &mut Multiaddr, p: Protocol<'_>)
    ensures
        address_parts(*final(address)) == address_parts(*old(address)).push(protocol_part(p)),
;

/// The variants of `Protocol` that stand for the segments, one for one.
#[verifier::external_body]
fn segment_protocol(segment: Segment) -> (res: Protocol<'static>)
    ensures
        protocol_part(res) == Part::Segment(segment),
{
    match segment {
        Segment::Ip(IpAddress::V4(bits)) => Protocol::Ip4(bits.into()),
        Segment::Ip(IpAddress::V6(bits)) => Protocol::Ip6(bits.into()),
        Segment::Udp(port) => Protocol::Udp(port),
        Segment::QuicV1 => Protocol::QuicV1,
        Segment::WebRtcDirect => Protocol::WebRTCDirect,
        Segment::P2p(peer) => Protocol::P2p(peer),
    }
}

/// `Multiaddr::from`, applied to one protocol: the address of that component
/// alone.
#[verifier::external_body]
fn single_address(protocol: Protocol<'static>) -> (res: Multiaddr)
    ensures
        address_parts(res) == seq![protocol_part(protocol)],
{
    Multiaddr::from(protocol)
}

/// `Multiaddr::iter`: the components of an address, in order.
#[verifier::external_body]
fn address_protocols(address: &Multiaddr) -> (res: Vec<Protocol<'static>>)
    ensures
        res@.len() == address_parts(*address).len(),
        forall|i: int|
            0 <= i < res@.len() ==> protocol_part(#[trigger] res@[i]) == address_parts(*address)[i],
{
    address.iter().map(|protocol| protocol.acquire()).collect()
}

/// The components behind the first one.
pub open spec fn tail_parts(parts: Seq<Part>) -> Seq<Part> {
    if parts.len() == 0 {
        parts
    } else {
        parts.subrange(1, parts.len() as int)
    }
}

/// `/<ip>/udp/<webrtc port>/webrtc-direct`
pub open spec fn webrtc_parts(ip: IpAddress) -> Seq<Part> {
    seq![
        Part::Segment(Segment::Ip(ip)),
        Part::Segment(Segment::Udp(PORT_WEBRTC)),
        Part::Segment(Segment::WebRtcDirect),
    ]
}

/// `/<ip>/udp/<quic port>/quic-v1`
pub open spec fn quic_parts(ip: IpAddress) -> Seq<Part> {
    seq![
        Part::Segment(Segment::Ip(ip)),
        Part::Segment(Segment::Udp(PORT_QUIC)),
        Part::Segment(Segment::QuicV1),
    ]
}

/// An address under another IP address: the first component is replaced, the
/// others stay.
pub open spec fn external_parts(ip: IpAddress, parts: Seq<Part>) -> Seq<Part> {
    seq![Part::Segment(Segment::Ip(ip))] + tail_parts(parts)
}

/// An address that ends in the id of the peer behind it.
pub open spec fn peer_parts(parts: Seq<Part>, peer: PeerId) -> Seq<Part> {
    parts.push(Part::Segment(Segment::P2p(peer)))
}

/// The address under which a peer enters the routing table.
pub open spec fn routing_parts(parts: Seq<Part>, peer: PeerId) -> Seq<Part> {
    peer_parts(parts.push(Part::Segment(Segment::WebRtcDirect)), peer)
}

/// The address of the WebRTC listener.
pub fn webrtc_address(ip: IpAddress) -> (res: Multiaddr)
    ensures
        address_parts(res) == webrtc_parts(ip),
{
    let res = single_address(segment_protocol(Segment::Ip(ip))).with(
        segment_protocol(Segment::Udp(PORT_WEBRTC)),
    ).with(segment_protocol(Segment::WebRtcDirect));
    assert(address_parts(res) =~= webrtc_parts(ip));
    res
}

/// The address of the QUIC listener.
pub fn quic_address(ip: IpAddress) -> (res: Multiaddr)
    ensures
        address_parts(res) == quic_parts(ip),
{
    let res = single_address(segment_protocol(Segment::Ip(ip))).with(
        segment_protocol(Segment::Udp(PORT_QUIC)),
    ).with(segment_protocol(Segment::QuicV1));
    assert(address_parts(res) =~= quic_parts(ip));
    res
}

/// The address that the peer advertises for a listener: the listener's own with
/// the external IP address in front.
pub fn external_address(ip: IpAddress, address: &Multiaddr) -> (res: Multiaddr)
    ensures
        address_parts(res) == external_parts(ip, address_parts(*address)),
{
    let ghost parts = address_parts(*address);
    let mut res = single_address(segment_protocol(Segment::Ip(ip)));
    let protocols = address_protocols(address);
    let mut first: bool = true;
    for protocol in it: protocols.into_iter()
        invariant
            it.seq().len() == parts.len(),
            forall|i: int|
                0 <= i < parts.len() ==> protocol_part(#[trigger] it.seq()[i]) == parts[i],
            first == (it.index() == 0),
            address_parts(res) =~= external_parts(ip, parts.take(it.index() as int)),
    {
        if first {
            first = false;
        } else {
            res.push(protocol);
        }
    }
    assert(parts.take(parts.len() as int) =~= parts);
    res
}

/// The address of a listener together with the id of its peer.
pub fn peer_address(address: Multiaddr, peer: PeerId) -> (res: Multiaddr)
    ensures
        address_parts(res) == peer_parts(address_parts(address), peer),
{
    address.with(segment_protocol(Segment::P2p(peer)))
}

/// The address under which a peer is filed in the routing table.
pub fn routing_address(address: Multiaddr, peer: PeerId) -> (res: Multiaddr)
    ensures
        address_parts(res) == routing_parts(address_parts(address), peer),
{
    peer_address(address.with(segment_protocol(Segment::WebRtcDirect)), peer)
}

} // verus!
