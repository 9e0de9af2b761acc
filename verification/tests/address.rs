use ebe_nuka::address::{
    external_address, peer_address, quic_address, routing_address, webrtc_address, IpAddress,
};
use libp2p::{Multiaddr, PeerId};

const PEER: &str = "12D3KooWDpJ7As7BWAwRMfu1VU2WCqNjvq387JEYKDBj4kx6nXTN";

fn address(text: &str) -> Multiaddr {
    text.parse().unwrap()
}

fn peer() -> PeerId {
    PEER.parse().unwrap()
}

#[test]
fn webrtc_listener_on_all_interfaces() {
    let res = webrtc_address(IpAddress::V4(0));
    assert_eq!(res.to_string(), "/ip4/0.0.0.0/udp/9090/webrtc-direct");
}

#[test]
fn quic_listener_on_all_interfaces() {
    let res = quic_address(IpAddress::V4(0));
    assert_eq!(res.to_string(), "/ip4/0.0.0.0/udp/9091/quic-v1");
}

#[test]
fn octets_are_read_most_significant_first() {
    let res = webrtc_address(IpAddress::V4(0x7f00_0001));
    assert_eq!(res.to_string(), "/ip4/127.0.0.1/udp/9090/webrtc-direct");
    let res = quic_address(IpAddress::V6(1));
    assert_eq!(res.to_string(), "/ip6/::1/udp/9091/quic-v1");
}

#[test]
fn listeners_have_two_addresses() {
    for ip in [IpAddress::V4(0), IpAddress::V4(u32::MAX), IpAddress::V6(7)] {
        assert_ne!(webrtc_address(ip), quic_address(ip));
    }
}

#[test]
fn external_address_replaces_the_first_component() {
    let ip = IpAddress::V4(0xcb00_7109);
    let listener = address("/ip4/10.0.0.1/udp/9090/webrtc-direct");
    assert_eq!(
        external_address(ip, &listener).to_string(),
        "/ip4/203.0.113.9/udp/9090/webrtc-direct"
    );
    let named = address("/dns4/example.com/tcp/443/wss");
    assert_eq!(external_address(ip, &named).to_string(), "/ip4/203.0.113.9/tcp/443/wss");
}

#[test]
fn external_address_of_another_family() {
    let listener = address("/ip4/10.0.0.1/udp/9091/quic-v1");
    assert_eq!(
        external_address(IpAddress::V6(1), &listener).to_string(),
        "/ip6/::1/udp/9091/quic-v1"
    );
}

#[test]
fn external_address_of_the_empty_and_the_bare_address() {
    let ip = IpAddress::V4(0x0102_0304);
    assert_eq!(external_address(ip, &Multiaddr::empty()).to_string(), "/ip4/1.2.3.4");
    assert_eq!(external_address(ip, &address("/ip6/::1")).to_string(), "/ip4/1.2.3.4");
}

#[test]
fn external_address_twice_is_external_address_once() {
    let ip = IpAddress::V4(0x0102_0304);
    let once = external_address(ip, &address("/ip4/10.0.0.1/udp/9090/webrtc-direct"));
    assert_eq!(external_address(ip, &once), once);
}

#[test]
fn listener_on_the_external_address() {
    let ip = IpAddress::V4(0x0102_0304);
    assert_eq!(external_address(ip, &webrtc_address(IpAddress::V4(0))), webrtc_address(ip));
    assert_eq!(external_address(ip, &quic_address(IpAddress::V4(0))), quic_address(ip));
}

#[test]
fn peer_address_ends_in_the_peer() {
    let res = peer_address(address("/ip4/1.2.3.4/udp/9091/quic-v1"), peer());
    assert_eq!(res.to_string(), format!("/ip4/1.2.3.4/udp/9091/quic-v1/p2p/{PEER}"));
}

#[test]
fn routing_address_goes_through_webrtc() {
    let res = routing_address(address("/ip4/1.2.3.4/udp/9090"), peer());
    assert_eq!(res.to_string(), format!("/ip4/1.2.3.4/udp/9090/webrtc-direct/p2p/{PEER}"));
    let again = routing_address(address("/ip4/1.2.3.4/udp/9090/webrtc-direct"), peer());
    assert_eq!(
        again.to_string(),
        format!("/ip4/1.2.3.4/udp/9090/webrtc-direct/webrtc-direct/p2p/{PEER}")
    );
}
