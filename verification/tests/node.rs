use ebe_nuka::address::IpAddress;
use ebe_nuka::commands::send_message;
use ebe_nuka::message::chat_publication;
use ebe_nuka::node::{Action, Event, Node, Opt};
use ebe_nuka::state::SharedState;
use libp2p::identity::Keypair;
use libp2p::{Multiaddr, PeerId};

const KADEMLIA: &str = "/ipfs/kad/1.0.0";

fn address(text: &str) -> Multiaddr {
    text.parse().unwrap()
}

/// An action in one line.
fn show(action: &Action) -> String {
    match action {
        Action::Listen { address } => format!("listen {address}"),
        Action::Dial { address } => format!("dial {address}"),
        Action::AddExternalAddress { address } => format!("external {address}"),
        Action::ReportListening { address } => format!("listening {address}"),
        Action::Publish { publication } => {
            format!("publish {} {:?}", publication.topic, publication.data)
        }
        Action::ReportHandshake { source } => format!("handshake {source:?}"),
        Action::RequestFile { peer, file_id } => format!("request {peer} {file_id}"),
        Action::AddAddress { peer, address } => format!("add {peer} {address}"),
        Action::RemovePeer { peer } => format!("remove {peer}"),
        Action::RestartTick { secs } => format!("tick {secs}"),
        Action::Bootstrap => "bootstrap".to_owned(),
    }
}

fn show_all(actions: &[Action]) -> Vec<String> {
    actions.iter().map(show).collect()
}

fn public_node(identity: &Keypair) -> Node {
    Node::new(identity, &Opt::public(IpAddress::V4(0xcb00_7109)))
}

fn message(source: Option<PeerId>, topic: &str, data: &[u8]) -> Event {
    Event::Message { source, topic: topic.to_owned(), data: data.to_vec() }
}

/// What a node does about an event, and the messages it has then.
fn react(event: Event) -> (Vec<String>, Vec<String>) {
    let mut state = SharedState::new();
    assert!(event.is_accepted());
    let actions = public_node(&Keypair::generate_ed25519()).handle(event, &mut state);
    (show_all(&actions), state.get_messages())
}

#[test]
fn public_options() {
    let opt = Opt::public(IpAddress::V6(1));
    assert_eq!(opt.listen_address, IpAddress::V4(0));
    assert_eq!(opt.external_address, Some(IpAddress::V6(1)));
    assert!(opt.connect.is_empty());
}

#[test]
fn start_of_a_public_node() {
    let actions = Opt::public(IpAddress::V4(1)).start();
    assert_eq!(
        show_all(&actions),
        [
            "listen /ip4/0.0.0.0/udp/9090/webrtc-direct",
            "listen /ip4/0.0.0.0/udp/9091/quic-v1",
            "tick 15",
        ]
    );
}

#[test]
fn start_dials_in_order() {
    let opt = Opt {
        listen_address: IpAddress::V4(0x7f00_0001),
        external_address: None,
        connect: vec![address("/ip4/2.2.2.2/udp/9091/quic-v1"), address("/ip4/1.1.1.1/udp/9090")],
    };
    assert_eq!(
        show_all(&opt.start()),
        [
            "listen /ip4/127.0.0.1/udp/9090/webrtc-direct",
            "listen /ip4/127.0.0.1/udp/9091/quic-v1",
            "dial /ip4/2.2.2.2/udp/9091/quic-v1",
            "dial /ip4/1.1.1.1/udp/9090",
            "tick 15",
        ]
    );
}

#[test]
fn new_listen_address_is_advertised() {
    let identity = Keypair::generate_ed25519();
    let own = PeerId::from(identity.public());
    let mut state = SharedState::new();
    let event =
        Event::NewListenAddr { address: address("/ip4/10.0.0.1/udp/9090/webrtc-direct") };
    let actions = public_node(&identity).handle(event, &mut state);
    assert_eq!(
        show_all(&actions),
        [
            "external /ip4/203.0.113.9/udp/9090/webrtc-direct".to_owned(),
            format!("listening /ip4/10.0.0.1/udp/9090/webrtc-direct/p2p/{own}"),
        ]
    );
    assert!(state.get_messages().is_empty());
}

#[test]
fn without_an_external_address_nothing_is_advertised() {
    let identity = Keypair::generate_ed25519();
    let own = PeerId::from(identity.public());
    let opt = Opt {
        listen_address: IpAddress::V4(0),
        external_address: None,
        connect: Vec::new(),
    };
    let event = Event::NewListenAddr { address: address("/ip4/10.0.0.1/udp/9091/quic-v1") };
    let actions = Node::new(&identity, &opt).handle(event, &mut SharedState::new());
    assert_eq!(
        show_all(&actions),
        [format!("listening /ip4/10.0.0.1/udp/9091/quic-v1/p2p/{own}")]
    );
}

#[test]
fn new_connection_gets_a_handshake() {
    let (actions, messages) = react(Event::ConnectionEstablished { peer: PeerId::random() });
    assert_eq!(actions, [format!("publish ebe-nuka {:?}", b"Handshake")]);
    assert!(messages.is_empty());
}

#[test]
fn closed_connection_leaves_the_routing_table() {
    let peer = PeerId::random();
    let (actions, _) = react(Event::ConnectionClosed { peer });
    assert_eq!(actions, [format!("remove {peer}")]);
}

#[test]
fn handshake_is_told_of_and_kept() {
    let peer = PeerId::random();
    let (actions, messages) = react(message(Some(peer), "ebe-nuka", b"Handshake"));
    assert_eq!(actions, [format!("handshake {:?}", Some(peer))]);
    assert_eq!(messages, ["Handshake"]);
    let (actions, messages) = react(message(None, "ebe-nuka", b"Handshake"));
    assert_eq!(actions, ["handshake None"]);
    assert_eq!(messages, ["Handshake"]);
}

#[test]
fn chat_message_is_kept() {
    for text in ["", "hello", "handshake", "Handshake!", "h\u{e9}, \u{1f600}"] {
        let data = chat_publication(text).data;
        let (actions, messages) = react(message(Some(PeerId::random()), "ebe-nuka", &data));
        assert!(actions.is_empty());
        assert_eq!(messages, [text]);
    }
}

#[test]
fn announced_file_is_requested_from_its_source() {
    let peer = PeerId::random();
    let (actions, messages) = react(message(Some(peer), "ebe-nuka-file", b"file-1"));
    assert_eq!(actions, [format!("request {peer} file-1")]);
    assert_eq!(messages, ["file-1"]);
    let (actions, _) = react(message(Some(peer), "ebe-nuka-file", b"Handshake"));
    assert_eq!(actions, [format!("request {peer} Handshake")]);
}

#[test]
fn message_on_another_topic_is_only_kept() {
    let (actions, messages) = react(message(None, "ebe-nuka-files", b"Handshake"));
    assert!(actions.is_empty());
    assert_eq!(messages, ["Handshake"]);
}

#[test]
fn message_that_is_no_text_is_refused() {
    for topic in ["ebe-nuka", "ebe-nuka-file", "other"] {
        let event = message(Some(PeerId::random()), topic, &[0x68, 0xff]);
        assert!(!event.is_readable());
        assert!(!event.is_accepted());
    }
}

#[test]
fn announcement_without_a_source_is_kept_but_refused() {
    let event = message(None, "ebe-nuka-file", b"file-1");
    assert!(event.is_readable());
    assert!(!event.is_accepted());
    let mut state = SharedState::new();
    event.record(&mut state);
    assert_eq!(state.get_messages(), ["file-1"]);
}

#[test]
fn decision_on_an_accepted_event() {
    let node = public_node(&Keypair::generate_ed25519());
    let peer = PeerId::random();
    let mut state = SharedState::new();
    let actions = node.decide(message(Some(peer), "ebe-nuka-file", b"file-1"), &mut state);
    assert_eq!(show_all(&actions.unwrap()), [format!("request {peer} file-1")]);
    assert_eq!(state.get_messages(), ["file-1"]);
    let actions = node.decide(Event::Other, &mut state);
    assert!(actions.unwrap().is_empty());
    assert_eq!(state.get_messages(), ["file-1"]);
}

#[test]
fn decision_on_a_refused_event() {
    let node = public_node(&Keypair::generate_ed25519());
    let mut state = SharedState::new();
    assert!(node.decide(message(None, "ebe-nuka-file", b"file-1"), &mut state).is_none());
    assert_eq!(state.get_messages(), ["file-1"]);
    let unreadable = message(Some(PeerId::random()), "ebe-nuka", &[0xff]);
    assert!(node.decide(unreadable, &mut state).is_none());
    assert_eq!(state.get_messages(), ["file-1"]);
}

#[test]
fn only_a_timeout_of_identification_removes_a_peer() {
    let peer = PeerId::random();
    let (actions, _) = react(Event::IdentifyFailed { peer, timeout: true });
    assert_eq!(actions, [format!("remove {peer}")]);
    let (actions, _) = react(Event::IdentifyFailed { peer, timeout: false });
    assert!(actions.is_empty());
}

#[test]
fn identified_routing_peer_is_filed() {
    let peer = PeerId::random();
    let (actions, _) = react(Event::IdentifyReceived {
        peer,
        listen_addrs: vec![address("/ip4/1.1.1.1/udp/9090"), address("/ip4/2.2.2.2/udp/9090")],
        protocols: vec!["/ipfs/id/1.0.0".to_owned(), KADEMLIA.to_owned()],
    });
    assert_eq!(
        actions,
        [
            format!("add {peer} /ip4/1.1.1.1/udp/9090/webrtc-direct/p2p/{peer}"),
            format!("add {peer} /ip4/2.2.2.2/udp/9090/webrtc-direct/p2p/{peer}"),
        ]
    );
}

#[test]
fn identified_peer_outside_the_routing_is_not_filed() {
    for protocols in [vec![], vec!["/ipfs/kad/1.0.1".to_owned(), "/ipfs/id/1.0.0".to_owned()]] {
        let (actions, _) = react(Event::IdentifyReceived {
            peer: PeerId::random(),
            listen_addrs: vec![address("/ip4/1.1.1.1/udp/9090")],
            protocols,
        });
        assert!(actions.is_empty());
    }
    let (actions, _) = react(Event::IdentifyReceived {
        peer: PeerId::random(),
        listen_addrs: Vec::new(),
        protocols: vec![KADEMLIA.to_owned()],
    });
    assert!(actions.is_empty());
}

#[test]
fn tick_restarts_and_bootstraps() {
    let (actions, messages) = react(Event::Tick);
    assert_eq!(actions, ["tick 15", "bootstrap"]);
    assert!(messages.is_empty());
}

#[test]
fn other_events_lead_to_nothing() {
    let (actions, messages) = react(Event::Other);
    assert!(actions.is_empty());
    assert!(messages.is_empty());
}

#[test]
fn published_handshake_is_recognised() {
    let sender = public_node(&Keypair::generate_ed25519());
    let mut state = SharedState::new();
    let mut actions =
        sender.handle(Event::ConnectionEstablished { peer: PeerId::random() }, &mut state);
    let publication = match actions.pop() {
        Some(Action::Publish { publication }) => publication,
        _ => unreachable!(),
    };
    assert!(actions.is_empty());
    let (actions, _) =
        react(Event::Message { source: None, topic: publication.topic, data: publication.data });
    assert_eq!(actions, ["handshake None"]);
}

#[test]
fn sent_and_received_messages_in_order() {
    let node = public_node(&Keypair::generate_ed25519());
    let mut state = SharedState::new();
    let peer = Some(PeerId::random());
    assert!(send_message(&mut state, "one".to_owned(), Ok(())).is_ok());
    node.handle(message(peer, "ebe-nuka", b"two"), &mut state);
    node.handle(Event::Tick, &mut state);
    assert!(send_message(&mut state, "lost".to_owned(), Err(String::new())).is_err());
    node.handle(message(peer, "ebe-nuka-file", b"three"), &mut state);
    node.handle(message(peer, "ebe-nuka", b"two"), &mut state);
    assert_eq!(state.get_messages(), ["one", "two", "three", "two"]);
}
