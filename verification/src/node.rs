//! The event loop of a peer: what it does at the start and about each event.

use libp2p::gossipsub::IdentTopic;
use libp2p::identity::Keypair;
use libp2p::multiaddr::Multiaddr;
use libp2p::PeerId;
use vstd::prelude::*;
use vstd::utf8::{decode_utf8, encode_utf8, valid_utf8};

use crate::address::{
    address_parts, external_address, external_parts, peer_address, peer_parts, quic_address,
    quic_parts, routing_address, routing_parts, webrtc_address, webrtc_parts, IpAddress, Part,
};
use crate::identity::{identity_peer, local_peer};
use crate::message::{chat_publication, Publication};
use crate::settings::{
    GOSSIPSUB_CHAT_FILE_TOPIC, GOSSIPSUB_CHAT_TOPIC, HANDSHAKE, KADEMLIA_PROTOCOL_NAME,
    TICK_INTERVAL_SECS,
};
use crate::state::SharedState;

verus! {

/// What a peer is started with.
pub struct Opt {
    /// Address to listen on.
    pub listen_address: IpAddress,
    /// If known, the external address of this peer, which it advertises.
    pub external_address: Option<IpAddress>,
    /// Peers to connect to at the start.
    pub connect: Vec<Multiaddr>,
}

/// Something that the network or the clock brings.
pub enum Event {
    /// The peer listens on a new address.
    NewListenAddr { address: Multiaddr },
    /// A connection to a peer has been established.
    ConnectionEstablished { peer: PeerId },
    /// A connection to a peer was closed.
    ConnectionClosed { peer: PeerId },
    /// Gossip has delivered a message.
    Message { source: Option<PeerId>, topic: String, data: Vec<u8> },
    /// A peer could not be identified.
    IdentifyFailed { peer: PeerId, timeout: bool },
    /// A peer has identified itself.
    IdentifyReceived { peer: PeerId, listen_addrs: Vec<Multiaddr>, protocols: Vec<String> },
    /// The tick interval is over.
    Tick,
    /// Anything else.
    Other,
}

/// Something that the program around the event loop is to do.
pub enum Action {
    /// Listen on an address.
    Listen { address: Multiaddr },
    /// Dial an address.
    Dial { address: Multiaddr },
    /// Advertise an external address.
    AddExternalAddress { address: Multiaddr },
    /// Tell the operator where the peer can be reached.
    ReportListening { address: Multiaddr },
    /// Publish to a topic.
    Publish { publication: Publication },
    /// Tell the operator that a handshake has come in.
    ReportHandshake { source: Option<PeerId> },
    /// Request a file from a peer.
    RequestFile { peer: PeerId, file_id: String },
    /// Put an address of a peer into the routing table.
    AddAddress { peer: PeerId, address: Multiaddr },
    /// Take a peer out of the routing table.
    RemovePeer { peer: PeerId },
    /// Start the tick interval anew.
    RestartTick { secs: u64 },
    /// Refresh the routing table.
    Bootstrap,
}

/// An event, with addresses as their components and texts as their characters.
pub enum EventView {
    NewListenAddr { address: Seq<Part> },
    ConnectionEstablished { peer: PeerId },
    ConnectionClosed { peer: PeerId },
    Message { source: Option<PeerId>, topic: Seq<char>, data: Seq<u8> },
    IdentifyFailed { peer: PeerId, timeout: bool },
    IdentifyReceived {
        peer: PeerId,
        listen_addrs: Seq<Seq<Part>>,
        protocols: Seq<Seq<char>>,
    },
    Tick,
    Other,
}

/// An action, with addresses as their components and texts as their characters.
pub enum ActionView {
    Listen { address: Seq<Part> },
    Dial { address: Seq<Part> },
    AddExternalAddress { address: Seq<Part> },
    ReportListening { address: Seq<Part> },
    Publish { topic: Seq<char>, data: Seq<u8> },
    ReportHandshake { source: Option<PeerId> },
    RequestFile { peer: PeerId, file_id: Seq<char> },
    AddAddress { peer: PeerId, address: Seq<Part> },
    RemovePeer { peer: PeerId },
    RestartTick { secs: u64 },
    Bootstrap,
}

/// The components of each of several addresses.
pub open spec fn all_parts(addresses: Seq<Multiaddr>) -> Seq<Seq<Part>> {
    addresses.map_values(|address: Multiaddr| address_parts(address))
}

impl View for Event {
    type V = EventView;

    open spec fn view(&self) -> EventView {
        match *self {
            Event::NewListenAddr { address } => EventView::NewListenAddr {
                address: address_parts(address),
            },
            Event::ConnectionEstablished { peer } => EventView::ConnectionEstablished { peer },
            Event::ConnectionClosed { peer } => EventView::ConnectionClosed { peer },
            Event::Message { source, topic, data } => EventView::Message {
                source,
                topic: topic@,
                data: data@,
            },
            Event::IdentifyFailed { peer, timeout } => EventView::IdentifyFailed { peer, timeout },
            Event::IdentifyReceived { peer, listen_addrs, protocols } => {
                EventView::IdentifyReceived {
                    peer,
                    listen_addrs: all_parts(listen_addrs@),
                    protocols: protocols.deep_view(),
                }
            },
            Event::Tick => EventView::Tick,
            Event::Other => EventView::Other,
        }
    }
}

impl View for Action {
    type V = ActionView;

    open spec fn view(&self) -> ActionView {
        match *self {
            Action::Listen { address } => ActionView::Listen { address: address_parts(address) },
            Action::Dial { address } => ActionView::Dial { address: address_parts(address) },
            Action::AddExternalAddress { address } => ActionView::AddExternalAddress {
                address: address_parts(address),
            },
            Action::ReportListening { address } => ActionView::ReportListening {
                address: address_parts(address),
            },
            Action::Publish { publication } => ActionView::Publish {
                topic: publication.topic@,
                data: publication.data@,
            },
            Action::ReportHandshake { source } => ActionView::ReportHandshake { source },
            Action::RequestFile { peer, file_id } => ActionView::RequestFile {
                peer,
                file_id: file_id@,
            },
            Action::AddAddress { peer, address } => ActionView::AddAddress {
                peer,
                address: address_parts(address),
            },
            Action::RemovePeer { peer } => ActionView::RemovePeer { peer },
            Action::RestartTick { secs } => ActionView::RestartTick { secs },
            Action::Bootstrap => ActionView::Bootstrap,
        }
    }
}

/// A list of actions.
pub open spec fn action_views(actions: Seq<Action>) -> Seq<ActionView> {
    actions.map_values(|action: Action| action@)
}

/// What the event loop of a peer goes by.
pub struct NodeView {
    pub local_peer: PeerId,
    pub external_address: Option<IpAddress>,
}

/// How a peer reaches the network: it listens on both transports, then dials the peers
/// that it was told to connect to.
pub open spec fn opening(ip: IpAddress, connect: Seq<Seq<Part>>) -> Seq<ActionView> {
    seq![
        ActionView::Listen { address: webrtc_parts(ip) },
        ActionView::Listen { address: quic_parts(ip) },
    ] + connect.map_values(|address: Seq<Part>| ActionView::Dial { address })
}

/// What a peer does at its start: it reaches the network, then starts the first tick
/// interval.
pub open spec fn startup(ip: IpAddress, connect: Seq<Seq<Part>>) -> Seq<ActionView> {
    opening(ip, connect).push(ActionView::RestartTick { secs: TICK_INTERVAL_SECS })
}

/// Whether an event can be recorded: a message has to be text.
pub open spec fn readable(event: EventView) -> bool {
    match event {
        EventView::Message { data, .. } => valid_utf8(data),
        _ => true,
    }
}

/// Whether a peer can react to an event: besides, a file has to be announced by
/// somebody.
pub open spec fn accepted(event: EventView) -> bool {
    &&& readable(event)
    &&& event matches EventView::Message { source, topic, .. } ==> topic
        == GOSSIPSUB_CHAT_FILE_TOPIC@ ==> source is Some
}

/// What a peer does about a message: it tells of a handshake in the chat, and it
/// requests the file that a message to the file topic names from whoever sent it.
pub open spec fn message_reaction(
    source: Option<PeerId>,
    topic: Seq<char>,
    text: Seq<char>,
) -> Seq<ActionView> {
    let handshake = if topic == GOSSIPSUB_CHAT_TOPIC@ && text == HANDSHAKE@ {
        seq![ActionView::ReportHandshake { source }]
    } else {
        seq![]
    };
    let request = if topic == GOSSIPSUB_CHAT_FILE_TOPIC@ {
        seq![ActionView::RequestFile { peer: source->0, file_id: text }]
    } else {
        seq![]
    };
    handshake + request
}

/// What a peer does about the addresses of another peer that takes part in routing:
/// each of them enters the routing table.
pub open spec fn routing_actions(peer: PeerId, listen_addrs: Seq<Seq<Part>>) -> Seq<ActionView> {
    listen_addrs.map_values(
        |address: Seq<Part>|
            ActionView::AddAddress { peer, address: routing_parts(address, peer) },
    )
}

/// What a peer does about an event.
pub open spec fn reaction(node: NodeView, event: EventView) -> Seq<ActionView> {
    match event {
        EventView::NewListenAddr { address } => {
            let listening = ActionView::ReportListening {
                address: peer_parts(address, node.local_peer),
            };
            match node.external_address {
                Some(ip) => seq![
                    ActionView::AddExternalAddress { address: external_parts(ip, address) },
                    listening,
                ],
                None => seq![listening],
            }
        },
        EventView::ConnectionEstablished { .. } => seq![
            ActionView::Publish { topic: GOSSIPSUB_CHAT_TOPIC@, data: encode_utf8(HANDSHAKE@) },
        ],
        EventView::ConnectionClosed { peer } => seq![ActionView::RemovePeer { peer }],
        EventView::Message { source, topic, data } => message_reaction(
            source,
            topic,
            decode_utf8(data),
        ),
        EventView::IdentifyFailed { peer, timeout } => if timeout {
            seq![ActionView::RemovePeer { peer }]
        } else {
            seq![]
        },
        EventView::IdentifyReceived { peer, listen_addrs, protocols } => if protocols.contains(
            KADEMLIA_PROTOCOL_NAME@,
        ) {
            routing_actions(peer, listen_addrs)
        } else {
            seq![]
        },
        EventView::Tick => seq![
            ActionView::RestartTick { secs: TICK_INTERVAL_SECS },
            ActionView::Bootstrap,
        ],
        EventView::Other => seq![],
    }
}

/// The messages that a peer has after an event: the text of a message is kept,
/// whatever its topic.
pub open spec fn recorded(messages: Seq<Seq<char>>, event: EventView) -> Seq<Seq<char>> {
    match event {
        EventView::Message { data, .. } => messages.push(decode_utf8(data)),
        _ => messages,
    }
}

/// `IdentTopic::hash`, as the text by which messages carry their topic: the topic
/// under its own name.
#[verifier::external_body]
fn topic_hash(topic: &str) -> (res: String)
    ensures
        res@ == topic@,
{
    IdentTopic::new(topic).hash().into_string()
}

/// The event loop of a peer, between two events.
pub struct Node {
    local_peer: PeerId,
    external_address: Option<IpAddress>,
    chat_topic: String,
    file_topic: String,
}

impl View for Node {
    type V = NodeView;

    closed spec fn view(&self) -> NodeView {
        NodeView { local_peer: self.local_peer, external_address: self.external_address }
    }
}

impl Opt {
    /// Listens on all interfaces, advertises the public IP address and connects to
    /// nobody.
    pub fn public(public_ip: IpAddress) -> (res: Opt)
        ensures
            res.listen_address == IpAddress::V4(0),
            res.external_address == Some(public_ip),
            res.connect@ == Seq::<Multiaddr>::empty(),
    {
        Opt {
            listen_address: IpAddress::V4(0),
            external_address: Some(public_ip),
            connect: Vec::new(),
        }
    }

    /// What to do at the start.
    pub fn start(self) -> (res: Vec<Action>)
        ensures
            action_views(res@) == startup(self.listen_address, all_parts(self.connect@)),
    {
        let ghost connect = all_parts(self.connect@);
        let mut res: Vec<Action> = Vec::new();
        res.push(Action::Listen { address: webrtc_address(self.listen_address) });
        res.push(Action::Listen { address: quic_address(self.listen_address) });
        for address in it: self.connect.into_iter()
            invariant
                connect == all_parts(it.seq()),
                action_views(res@) =~= opening(
                    self.listen_address,
                    connect.take(it.index() as int),
                ),
        {
            let ghost before = connect.take(it.index() as int);
            let ghost parts = address_parts(address);
            assert(connect.take(it.index() + 1) =~= before.push(parts));
            let ghost done = res@;
            res.push(Action::Dial { address });
            assert(action_views(res@) =~= action_views(done).push(
                ActionView::Dial { address: parts },
            ));
            assert(opening(self.listen_address, before.push(parts)) =~= opening(
                self.listen_address,
                before,
            ).push(ActionView::Dial { address: parts }));
        }
        assert(connect.take(connect.len() as int) =~= connect);
        let ghost done = res@;
        res.push(Action::RestartTick { secs: TICK_INTERVAL_SECS });
        assert(action_views(res@) =~= action_views(done).push(
            ActionView::RestartTick { secs: TICK_INTERVAL_SECS },
        ));
        res
    }
}

/// The text of a message.
fn message_text(data: &Vec<u8>) -> (res: Option<String>)
    ensures
        res is Some <==> valid_utf8(data@),
        res matches Some(text) ==> text@ == decode_utf8(data@),
{
    let copy = data.clone();
    assert(copy@ =~= data@);
    match String::from_utf8(copy) {
        Ok(text) => Some(text),
        Err(_) => None,
    }
}

impl Event {
    /// Whether [`Event::record`] can be asked for.
    pub fn is_readable(&self) -> (res: bool)
        ensures
            res == readable(self@),
    {
        match self {
            Event::Message { data, .. } => message_text(data).is_some(),
            _ => true,
        }
    }

    /// Whether [`Node::handle`] can be asked about this event.
    pub fn is_accepted(&self) -> (res: bool)
        ensures
            res == accepted(self@),
    {
        if !self.is_readable() {
            return false;
        }
        match self {
            Event::Message { source, topic, .. } => source.is_some() || !topic.eq(
                &GOSSIPSUB_CHAT_FILE_TOPIC.to_owned(),
            ),
            _ => true,
        }
    }

    /// Adds the text of a message to the messages of the peer.
    pub fn record(&self, state: &mut SharedState)
        requires
            readable(self@),
        ensures
            final(state)@ == recorded(old(state)@, self@),
    {
        match self {
            Event::Message { data, .. } => match message_text(data) {
                Some(text) => state.add_message(text),
                None => {},
            },
            _ => {},
        }
    }
}

fn has_protocol(protocols: &Vec<String>, name: &str) -> (res: bool)
    ensures
        res == protocols.deep_view().contains(name@),
{
    let wanted = name.to_owned();
    let mut at: usize = 0;
    while at < protocols.len()
        invariant
            wanted@ == name@,
            at <= protocols@.len(),
            forall|i: int| 0 <= i < at ==> #[trigger] protocols.deep_view()[i] != name@,
        decreases protocols@.len() - at,
    {
        if protocols[at].eq(&wanted) {
            assert(protocols.deep_view()[at as int] == name@);
            return true;
        }
        at = at + 1;
    }
    false
}

impl Node {
    #[verifier::type_invariant]
    spec fn topics_are_known(self) -> bool {
        &&& self.chat_topic@ == GOSSIPSUB_CHAT_TOPIC@
        &&& self.file_topic@ == GOSSIPSUB_CHAT_FILE_TOPIC@
    }

    /// The event loop of the peer that holds the identity.
    pub fn new(identity: &Keypair, opt: &Opt) -> (res: Node)
        ensures
            res@ == (NodeView {
                local_peer: identity_peer(*identity),
                external_address: opt.external_address,
            }),
    {
        Node {
            local_peer: local_peer(identity),
            external_address: opt.external_address,
            chat_topic: topic_hash(GOSSIPSUB_CHAT_TOPIC),
            file_topic: topic_hash(GOSSIPSUB_CHAT_FILE_TOPIC),
        }
    }

    fn handle_message(&self, source: Option<PeerId>, topic: String, data: Vec<u8>) -> (res: Vec<
        Action,
    >)
        requires
            accepted(EventView::Message { source, topic: topic@, data: data@ }),
        ensures
            action_views(res@) == message_reaction(source, topic@, decode_utf8(data@)),
    {
        proof {
            use_type_invariant(&*self);
        }
        let text = match String::from_utf8(data) {
            Ok(text) => text,
            Err(_) => vstd::pervasive::unreached(),
        };
        let mut res: Vec<Action> = Vec::new();
        if topic.eq(&self.chat_topic) && text.eq(&HANDSHAKE.to_owned()) {
            res.push(Action::ReportHandshake { source });
        }
        if topic.eq(&self.file_topic) {
            match source {
                Some(peer) => {
                    res.push(Action::RequestFile { peer, file_id: text });
                },
                None => {},
            }
        }
        assert(action_views(res@) =~= message_reaction(source, topic@, decode_utf8(data@)));
        res
    }

    fn handle_listen_addrs(&self, peer: PeerId, listen_addrs: Vec<Multiaddr>) -> (res: Vec<Action>)
        ensures
            action_views(res@) == routing_actions(peer, all_parts(listen_addrs@)),
    {
        let ghost parts = all_parts(listen_addrs@);
        let mut res: Vec<Action> = Vec::new();
        for address in it: listen_addrs.into_iter()
            invariant
                parts == all_parts(it.seq()),
                action_views(res@) =~= routing_actions(peer, parts.take(it.index() as int)),
        {
            let ghost before = parts.take(it.index() as int);
            assert(parts.take(it.index() + 1) =~= before.push(address_parts(address)));
            let ghost done = res@;
            res.push(Action::AddAddress { peer, address: routing_address(address, peer) });
            assert(action_views(res@) =~= action_views(done).push(res@.last()@));
            assert(routing_actions(peer, before.push(address_parts(address))) =~= routing_actions(
                peer,
                before,
            ).push(res@.last()@));
        }
        assert(parts.take(parts.len() as int) =~= parts);
        res
    }

    /// Records an event and says what to do about it.
    pub fn handle(&self, event: Event, state: &mut SharedState) -> (res: Vec<Action>)
        requires
            accepted(event@),
        ensures
            action_views(res@) == reaction(self@, event@),
            final(state)@ == recorded(old(state)@, event@),
    {
        event.record(state);
        let mut res: Vec<Action> = Vec::new();
        match event {
            Event::NewListenAddr { address } => {
                if let Some(ip) = self.external_address {
                    res.push(
                        Action::AddExternalAddress { address: external_address(ip, &address) },
                    );
                }
                res.push(
                    Action::ReportListening { address: peer_address(address, self.local_peer) },
                );
            },
            Event::ConnectionEstablished { .. } => {
                res.push(Action::Publish { publication: chat_publication(HANDSHAKE) });
            },
            Event::ConnectionClosed { peer } => {
                res.push(Action::RemovePeer { peer });
            },
            Event::Message { source, topic, data } => {
                return self.handle_message(source, topic, data);
            },
            Event::IdentifyFailed { peer, timeout } => {
                if timeout {
                    res.push(Action::RemovePeer { peer });
                }
            },
            Event::IdentifyReceived { peer, listen_addrs, protocols } => {
                if has_protocol(&protocols, KADEMLIA_PROTOCOL_NAME) {
                    return self.handle_listen_addrs(peer, listen_addrs);
                }
            },
            Event::Tick => {
                res.push(Action::RestartTick { secs: TICK_INTERVAL_SECS });
                res.push(Action::Bootstrap);
            },
            Event::Other => {},
        }
        assert(action_views(res@) =~= reaction(self@, event@));
        res
    }

    /// Records an event, if it can be recorded, and says what to do about it, if the peer
    /// can react to it. The text of a file announced by nobody is kept, though there is
    /// nobody to request the file from.
    pub fn decide(&self, event: Event, state: &mut SharedState) -> (res: Option<Vec<Action>>)
        ensures
            res is Some <==> accepted(event@),
            res matches Some(actions) ==> action_views(actions@) == reaction(self@, event@),
            final(state)@ == (if readable(event@) {
                recorded(old(state)@, event@)
            } else {
                old(state)@
            }),
    {
        if event.is_accepted() {
            return Some(self.handle(event, state));
        }
        if event.is_readable() {
            event.record(state);
        }
        None
    }
}

} // verus!
