//! What holds of a peer as a whole.

use libp2p::multiaddr::Multiaddr;
use libp2p::PeerId;
use std::collections::hash_map::DefaultHasher;
use vstd::endian::endianness;
use vstd::prelude::*;
use vstd::std_specs::hash::DefaultHasherAdditionalSpecFns;
use vstd::utf8::{
    decode_utf8, encode_utf8, encode_utf8_decode_utf8, encode_utf8_valid_utf8, valid_utf8,
};

use crate::address::{
    address_parts, external_parts, peer_parts, quic_parts, routing_parts, webrtc_parts, IpAddress,
    Part, Segment,
};
use crate::commands::{after_send, explained};
use crate::gossip::{
    chat_settings, chat_topics, content_config, GossipSettings, Validation,
};
use crate::message::{content_digest, content_id, decimal, digit_char, hash_writes};
use crate::node::{
    accepted, action_views, all_parts, message_reaction, reaction, readable, recorded,
    routing_actions, startup, Action, ActionView, Event, EventView, NodeView, Opt,
};
use crate::settings::{
    FILE_EXCHANGE_PROTOCOL, GOSSIPSUB_CHAT_FILE_TOPIC, GOSSIPSUB_CHAT_TOPIC, HANDSHAKE,
    IDENTIFY_INTERVAL_SECS, IDENTIFY_PROTOCOL_VERSION, IDLE_CONNECTION_TIMEOUT_SECS,
    KADEMLIA_PROTOCOL_NAME, LOCAL_CERT_PATH, LOCAL_KEY_PATH, PORT_QUIC, PORT_WEBRTC,
    RELAY_MAX_CIRCUITS, RELAY_MAX_CIRCUITS_PER_PEER, RELAY_MAX_RESERVATIONS,
    RELAY_MAX_RESERVATIONS_PER_PEER, TICK_INTERVAL_SECS,
};
use crate::swarm::{
    default_identify, default_relay, default_routing, own_protocols, RelayLimits, RoutingState,
};

verus! {

/// Something that can happen to the messages of a peer: an event, or its user
/// sends a message.
pub enum Step {
    Event { event: EventView },
    Send { message: Seq<char>, published: bool },
}

/// The messages after a step.
pub open spec fn after_step(messages: Seq<Seq<char>>, step: Step) -> Seq<Seq<char>> {
    match step {
        Step::Event { event } => recorded(messages, event),
        Step::Send { message, published } => after_send(messages, message, published),
    }
}

/// The messages after several steps.
pub open spec fn after_steps(messages: Seq<Seq<char>>, steps: Seq<Step>) -> Seq<Seq<char>>
    decreases steps.len(),
{
    if steps.len() == 0 {
        messages
    } else {
        after_step(after_steps(messages, steps.drop_last()), steps.last())
    }
}

/// Whether a step brings a message to the user's eyes.
pub open spec fn brings_message(step: Step) -> bool {
    match step {
        Step::Event { event } => event is Message,
        Step::Send { published, .. } => published,
    }
}

/// The message that a step brings.
pub open spec fn brought_message(step: Step) -> Seq<char> {
    match step {
        Step::Event { event } => decode_utf8(event->Message_data),
        Step::Send { message, .. } => message,
    }
}

/// The messages are those that were received or successfully sent, all of them,
/// each once for each time, in the order in which they came; none is ever lost.
pub proof fn messages_are_what_came_in_order(messages: Seq<Seq<char>>, steps: Seq<Step>)
    ensures
        after_steps(messages, steps) == messages + steps.filter(
            |step: Step| brings_message(step),
        ).map_values(|step: Step| brought_message(step)),
        messages.is_prefix_of(after_steps(messages, steps)),
    decreases steps.len(),
{
    let brings = |step: Step| brings_message(step);
    let brought = |step: Step| brought_message(step);
    reveal(Seq::filter);
    if steps.len() > 0 {
        let earlier = steps.drop_last();
        messages_are_what_came_in_order(messages, earlier);
        if brings_message(steps.last()) {
            assert(steps.filter(brings).map_values(brought) =~= earlier.filter(brings).map_values(
                brought,
            ).push(brought_message(steps.last())));
        }
    }
    assert(after_steps(messages, steps) =~= messages + steps.filter(brings).map_values(brought));
}

/// The chat and the file announcements are kept apart: their topics differ.
pub proof fn topics_differ()
    ensures
        GOSSIPSUB_CHAT_TOPIC@ != GOSSIPSUB_CHAT_FILE_TOPIC@,
{
    reveal_strlit("ebe-nuka");
    reveal_strlit("ebe-nuka-file");
    assert(GOSSIPSUB_CHAT_TOPIC@.len() == 8);
    assert(GOSSIPSUB_CHAT_FILE_TOPIC@.len() == 13);
}

/// What one peer sends to the chat another peer accepts and keeps as the very same
/// text, whatever text it is; it requests no file on that account.
pub proof fn sent_message_arrives(
    message: Seq<char>,
    source: Option<PeerId>,
    node: NodeView,
    messages: Seq<Seq<char>>,
)
    ensures
        ({
            let event = EventView::Message {
                source,
                topic: GOSSIPSUB_CHAT_TOPIC@,
                data: encode_utf8(message),
            };
            &&& accepted(event)
            &&& recorded(messages, event) == messages.push(message)
            &&& forall|i: int|
                0 <= i < reaction(node, event).len() ==> !(#[trigger] reaction(node, event)[i]
                    is RequestFile)
        }),
{
    topics_differ();
    encode_utf8_valid_utf8(message);
    encode_utf8_decode_utf8(message);
}

/// A connection starts with a handshake that the other side recognises: what a peer
/// publishes on a new connection makes a peer that receives it tell of a handshake
/// from whoever sent it, and of nothing else.
pub proof fn handshake_is_recognised(
    sender: NodeView,
    receiver: NodeView,
    peer: PeerId,
    source: Option<PeerId>,
)
    ensures
        reaction(sender, EventView::ConnectionEstablished { peer }).len() == 1,
        reaction(sender, EventView::ConnectionEstablished { peer })[0] matches ActionView::Publish {
            topic,
            data,
        } && accepted(EventView::Message { source, topic, data }) && reaction(
            receiver,
            EventView::Message { source, topic, data },
        ) == seq![ActionView::ReportHandshake { source }],
{
    topics_differ();
    encode_utf8_valid_utf8(HANDSHAKE@);
    encode_utf8_decode_utf8(HANDSHAKE@);
    assert(message_reaction(source, GOSSIPSUB_CHAT_TOPIC@, HANDSHAKE@) =~= seq![
        ActionView::ReportHandshake { source },
    ]);
}

/// An announced file is requested once, under the announced id, from the peer that
/// announced it.
pub proof fn announced_file_is_requested(node: NodeView, peer: PeerId, file_id: Seq<char>)
    ensures
        ({
            let event = EventView::Message {
                source: Some(peer),
                topic: GOSSIPSUB_CHAT_FILE_TOPIC@,
                data: encode_utf8(file_id),
            };
            &&& accepted(event)
            &&& reaction(node, event) == seq![ActionView::RequestFile { peer, file_id }]
        }),
{
    topics_differ();
    encode_utf8_valid_utf8(file_id);
    encode_utf8_decode_utf8(file_id);
    assert(message_reaction(Some(peer), GOSSIPSUB_CHAT_FILE_TOPIC@, file_id) =~= seq![
        ActionView::RequestFile { peer, file_id },
    ]);
}

/// A message leads to one action at the most: it is a handshake or an announcement,
/// never both. One on any other topic leads to none.
pub proof fn message_leads_to_one_action(
    node: NodeView,
    source: Option<PeerId>,
    topic: Seq<char>,
    data: Seq<u8>,
)
    ensures
        reaction(node, EventView::Message { source, topic, data }).len() <= 1,
        topic != GOSSIPSUB_CHAT_TOPIC@ && topic != GOSSIPSUB_CHAT_FILE_TOPIC@ ==> reaction(
            node,
            EventView::Message { source, topic, data },
        ).len() == 0,
{
    topics_differ();
}

/// Only two kinds of event change the routing table by adding to it or taking from
/// it. A peer enters only when it has identified itself and takes part in routing,
/// under an address of its own that ends in its id. A peer leaves only when a
/// connection to it was closed or it did not identify itself in time.
pub proof fn routing_table_changes(node: NodeView, event: EventView, i: int)
    requires
        0 <= i < reaction(node, event).len(),
    ensures
        reaction(node, event)[i] matches ActionView::AddAddress { peer, address } ==> {
            &&& event matches EventView::IdentifyReceived { peer: identified, listen_addrs, protocols }
            &&& peer == identified
            &&& protocols.contains(KADEMLIA_PROTOCOL_NAME@)
            &&& 0 <= i < listen_addrs.len()
            &&& address == routing_parts(listen_addrs[i], peer)
            &&& address.last() == Part::Segment(Segment::P2p(peer))
        },
        reaction(node, event)[i] matches ActionView::RemovePeer { peer } ==> event
            == (EventView::ConnectionClosed { peer }) || event == (EventView::IdentifyFailed {
            peer,
            timeout: true,
        }),
{
}

/// Nothing is published but on a new connection.
pub proof fn only_connections_publish(node: NodeView, event: EventView, i: int)
    requires
        0 <= i < reaction(node, event).len(),
        reaction(node, event)[i] is Publish,
    ensures
        event is ConnectionEstablished,
{
}

/// A peer hears everything that it and its like act on: whatever it publishes goes to
/// a topic that its router subscribes to, and a message leads to an action only on
/// such a topic.
pub proof fn router_hears_what_matters(node: NodeView, event: EventView, i: int)
    requires
        0 <= i < reaction(node, event).len(),
    ensures
        reaction(node, event)[i] matches ActionView::Publish { topic, .. } ==> chat_topics().contains(
            topic,
        ),
        event matches EventView::Message { topic, .. } ==> chat_topics().contains(topic),
{
}

/// Peers with the routing table of this crate file each other: one that identifies
/// itself with the protocols of its table, among others, has all of its addresses
/// entered.
pub proof fn routing_peers_are_filed(
    node: NodeView,
    table: RoutingState,
    listen_addrs: Seq<Seq<Part>>,
    protocols: Seq<Seq<char>>,
)
    requires
        table.protocols == own_protocols(),
        forall|i: int|
            0 <= i < table.protocols.len() ==> protocols.contains(#[trigger] table.protocols[i]),
    ensures
        reaction(
            node,
            EventView::IdentifyReceived { peer: table.peer, listen_addrs, protocols },
        ) == routing_actions(table.peer, listen_addrs),
{
    assert(protocols.contains(table.protocols[0]));
}

/// The ticks go on, and no other event sets the clock: a tick, and only a tick, restarts
/// the interval and refreshes the routing table.
pub proof fn ticks_go_on(node: NodeView, event: EventView, i: int)
    requires
        0 <= i < reaction(node, event).len(),
    ensures
        reaction(node, EventView::Tick) == seq![
            ActionView::RestartTick { secs: TICK_INTERVAL_SECS },
            ActionView::Bootstrap,
        ],
        reaction(node, event)[i] is RestartTick || reaction(node, event)[i] is Bootstrap ==> event
            is Tick,
{
}

/// The clock starts with the peer, once: the start ends with the first tick interval, and
/// nothing before that touches the clock.
pub proof fn ticks_start_last(ip: IpAddress, connect: Seq<Seq<Part>>, i: int)
    requires
        0 <= i < startup(ip, connect).len(),
    ensures
        startup(ip, connect).last() == (ActionView::RestartTick { secs: TICK_INTERVAL_SECS }),
        startup(ip, connect)[i] is RestartTick <==> i == startup(ip, connect).len() - 1,
{
}

/// The start listens on WebRTC and on QUIC, then dials every peer that it was told to
/// connect to, each once and in the given order, and does nothing else but start the
/// clock.
pub proof fn start_reaches_everybody(ip: IpAddress, connect: Seq<Seq<Part>>)
    ensures
        startup(ip, connect).len() == connect.len() + 3,
        startup(ip, connect)[0] == (ActionView::Listen { address: webrtc_parts(ip) }),
        startup(ip, connect)[1] == (ActionView::Listen { address: quic_parts(ip) }),
        forall|i: int|
            0 <= i < connect.len() ==> #[trigger] startup(ip, connect)[i + 2] == (ActionView::Dial {
                address: connect[i],
            }),
        startup(ip, connect)[connect.len() + 2int] == (ActionView::RestartTick { secs: 15 }),
{
}

/// What [`Opt::start`] gives, action by action: the addresses are those of the options,
/// none left out and none added.
pub proof fn start_follows_the_options(opt: Opt, actions: Seq<Action>)
    requires
        action_views(actions) == startup(opt.listen_address, all_parts(opt.connect@)),
    ensures
        actions.len() == opt.connect@.len() + 3,
        actions[0] matches Action::Listen { address } && address_parts(address) == seq![
            Part::Segment(Segment::Ip(opt.listen_address)),
            Part::Segment(Segment::Udp(9090)),
            Part::Segment(Segment::WebRtcDirect),
        ],
        actions[1] matches Action::Listen { address } && address_parts(address) == seq![
            Part::Segment(Segment::Ip(opt.listen_address)),
            Part::Segment(Segment::Udp(9091)),
            Part::Segment(Segment::QuicV1),
        ],
        forall|i: int|
            0 <= i < opt.connect@.len() ==> (#[trigger] actions[i + 2] matches Action::Dial {
                address,
            } && address_parts(address) == address_parts(opt.connect@[i])),
        actions.last() == (Action::RestartTick { secs: 15 }),
{
    let connect = all_parts(opt.connect@);
    start_reaches_everybody(opt.listen_address, connect);
    address_lists_are_complete(opt.connect@);
    action_lists_are_complete(actions);
    listener_addresses(opt.listen_address);
    assert forall|i: int| 0 <= i < opt.connect@.len() implies (#[trigger] actions[i + 2] matches
        Action::Dial { address } && address_parts(address) == address_parts(opt.connect@[i])) by {
        assert(action_views(actions)[i + 2] == (ActionView::Dial { address: connect[i] }));
        actions_are_seen_whole(actions[i + 2]);
    }
    actions_are_seen_whole(actions[0]);
    actions_are_seen_whole(actions[1]);
    actions_are_seen_whole(actions.last());
}

/// What a peer advertises for its listeners is where they would listen on the
/// external address itself.
pub proof fn listeners_are_advertised(node: NodeView, ip: IpAddress, listen: IpAddress)
    requires
        node.external_address == Some(ip),
    ensures
        reaction(node, EventView::NewListenAddr { address: webrtc_parts(listen) })[0]
            == (ActionView::AddExternalAddress { address: webrtc_parts(ip) }),
        reaction(node, EventView::NewListenAddr { address: quic_parts(listen) })[0]
            == (ActionView::AddExternalAddress { address: quic_parts(ip) }),
{
    assert(external_parts(ip, webrtc_parts(listen)) =~= webrtc_parts(ip));
    assert(external_parts(ip, quic_parts(listen)) =~= quic_parts(ip));
}

/// A peer without an external address advertises none.
pub proof fn nothing_to_advertise(node: NodeView, event: EventView, i: int)
    requires
        node.external_address is None,
        0 <= i < reaction(node, event).len(),
    ensures
        !(reaction(node, event)[i] is AddExternalAddress),
{
}

/// Putting the external address in front of an address that has it there already
/// changes nothing, and only the first component of any address ever changes.
pub proof fn external_address_is_stable(ip: IpAddress, parts: Seq<Part>)
    ensures
        external_parts(ip, external_parts(ip, parts)) == external_parts(ip, parts),
        parts.len() > 0 ==> external_parts(ip, parts) == parts.update(
            0,
            Part::Segment(Segment::Ip(ip)),
        ),
{
    assert(external_parts(ip, external_parts(ip, parts)) =~= external_parts(ip, parts));
    if parts.len() > 0 {
        assert(external_parts(ip, parts) =~= parts.update(0, Part::Segment(Segment::Ip(ip))));
    }
}

/// The two listeners never get in each other's way: their addresses differ, already
/// in the port.
pub proof fn listeners_differ(ip: IpAddress)
    ensures
        webrtc_parts(ip)[1] != quic_parts(ip)[1],
        webrtc_parts(ip) != quic_parts(ip),
{
}

/// The router of the chat can be configured as it is, and it can sign what it
/// publishes.
pub proof fn chat_settings_are_valid()
    ensures
        chat_settings().consistent(),
        chat_settings().validation != Validation::Anonymous,
{
}

/// The number that a text of decimal digits spells.
pub open spec fn spelled_number(text: Seq<char>) -> int
    decreases text.len(),
{
    if text.len() == 0 {
        0
    } else {
        10 * spelled_number(text.drop_last()) + (text.last() as int - '0' as int)
    }
}

/// A number in decimal consists of digits alone, spells the number, and does not start
/// with a zero unless it is the number zero.
pub proof fn decimal_spells_the_number(number: nat)
    ensures
        spelled_number(decimal(number)) == number,
        forall|i: int|
            0 <= i < decimal(number).len() ==> '0' as int <= #[trigger] decimal(number)[i] as int
                <= '9' as int,
        decimal(number).len() > 0,
        number > 0 ==> decimal(number)[0] != '0',
        number == 0 ==> decimal(number) == seq!['0'],
    decreases number,
{
    let text = decimal(number);
    if number < 10 {
        assert(text.drop_last() =~= Seq::<char>::empty());
        assert(spelled_number(text.drop_last()) == 0);
        assert(number == 0 ==> text =~= seq!['0']);
    } else {
        decimal_spells_the_number(number / 10);
        assert(text.drop_last() =~= decimal(number / 10));
        assert forall|i: int| 0 <= i < text.len() implies '0' as int <= #[trigger] text[i] as int
            <= '9' as int by {
            if i < text.len() - 1 {
                assert(text[i] == decimal(number / 10)[i]);
            }
        }
        assert(text[0] == decimal(number / 10)[0]);
    }
}

/// What enters the hasher is the whole of a message's data, and nothing else; the id is
/// the digits of the hash.
pub proof fn message_id_covers_all_data(data: Seq<u8>)
    ensures
        content_digest(data) == DefaultHasher::spec_finish(
            hash_writes(data, usize::BITS as nat, endianness() is Little),
        ),
        content_id(data) == decimal(
            DefaultHasher::spec_finish(
                hash_writes(data, usize::BITS as nat, endianness() is Little),
            ) as nat,
        ),
        spelled_number(content_id(data)) == DefaultHasher::spec_finish(
            hash_writes(data, usize::BITS as nat, endianness() is Little),
        ),
{
    decimal_spells_the_number(content_digest(data) as nat);
}

proof fn decimal_is_injective(a: nat, b: nat)
    ensures
        decimal(a) == decimal(b) ==> a == b,
    decreases a,
{
    if decimal(a) == decimal(b) {
        assert(decimal(a).last() == digit_char(a % 10));
        assert(decimal(b).last() == digit_char(b % 10));
        if a >= 10 && b >= 10 {
            assert(decimal(a).drop_last() =~= decimal(a / 10));
            assert(decimal(b).drop_last() =~= decimal(b / 10));
            decimal_is_injective(a / 10, b / 10);
        } else {
            decimal_is_not_empty(a / 10);
            decimal_is_not_empty(b / 10);
        }
    }
}

proof fn decimal_is_not_empty(a: nat)
    ensures
        decimal(a).len() > 0,
    decreases a,
{
}

/// Two messages have one id exactly if their data have one hash. Where they come
/// from and under which topic they go does not matter; the same data is always the
/// same message.
pub proof fn message_ids_follow_digests(a: Seq<u8>, b: Seq<u8>)
    ensures
        content_id(a) == content_id(b) <==> content_digest(a) == content_digest(b),
        a == b ==> content_id(a) == content_id(b),
{
    decimal_is_injective(content_digest(a) as nat, content_digest(b) as nat);
}

/// Where a peer listens: on the WebRTC port of the address, and on its QUIC port.
pub proof fn listener_addresses(ip: IpAddress)
    ensures
        webrtc_parts(ip) == seq![
            Part::Segment(Segment::Ip(ip)),
            Part::Segment(Segment::Udp(9090)),
            Part::Segment(Segment::WebRtcDirect),
        ],
        quic_parts(ip) == seq![
            Part::Segment(Segment::Ip(ip)),
            Part::Segment(Segment::Udp(9091)),
            Part::Segment(Segment::QuicV1),
        ],
{
}

/// An external address starts with the IP address and goes on as the other address does
/// behind its first component. There is nothing to go on with behind an empty address.
pub proof fn external_address_keeps_the_rest(ip: IpAddress, parts: Seq<Part>)
    ensures
        external_parts(ip, parts).len() == if parts.len() == 0 {
            1
        } else {
            parts.len()
        },
        external_parts(ip, parts)[0] == Part::Segment(Segment::Ip(ip)),
        forall|i: int| 1 <= i < parts.len() ==> #[trigger] external_parts(ip, parts)[i] == parts[i],
{
}

/// The address of a peer is the address it was given, then the id of the peer.
pub proof fn peer_address_names_the_peer(parts: Seq<Part>, peer: PeerId)
    ensures
        peer_parts(parts, peer).len() == parts.len() + 1,
        peer_parts(parts, peer).last() == Part::Segment(Segment::P2p(peer)),
        peer_parts(parts, peer).drop_last() == parts,
{
    assert(peer_parts(parts, peer).drop_last() =~= parts);
}

/// A peer is filed under the address it was given, then WebRTC, then its id.
pub proof fn routing_address_names_the_peer(parts: Seq<Part>, peer: PeerId)
    ensures
        routing_parts(parts, peer).len() == parts.len() + 2,
        routing_parts(parts, peer).take(parts.len() as int) == parts,
        routing_parts(parts, peer)[parts.len() as int] == Part::Segment(Segment::WebRtcDirect),
        routing_parts(parts, peer)[parts.len() + 1int] == Part::Segment(Segment::P2p(peer)),
{
    assert(routing_parts(parts, peer).take(parts.len() as int) =~= parts);
}

/// A list of addresses is seen whole: as many as there are, each by its components.
pub proof fn address_lists_are_complete(addresses: Seq<Multiaddr>)
    ensures
        all_parts(addresses).len() == addresses.len(),
        forall|i: int|
            0 <= i < addresses.len() ==> #[trigger] all_parts(addresses)[i] == address_parts(
                addresses[i],
            ),
{
}

/// A list of actions is seen whole: as many as there are, each in its place.
pub proof fn action_lists_are_complete(actions: Seq<Action>)
    ensures
        action_views(actions).len() == actions.len(),
        forall|i: int| 0 <= i < actions.len() ==> #[trigger] action_views(actions)[i] == actions[i]@,
{
}

/// An event is seen whole: its kind, and everything that it holds.
pub proof fn events_are_seen_whole(event: Event)
    ensures
        match event {
            Event::NewListenAddr { address } => event@ == (EventView::NewListenAddr {
                address: address_parts(address),
            }),
            Event::ConnectionEstablished { peer } => event@ == (EventView::ConnectionEstablished {
                peer,
            }),
            Event::ConnectionClosed { peer } => event@ == (EventView::ConnectionClosed { peer }),
            Event::Message { source, topic, data } => event@ == (EventView::Message {
                source,
                topic: topic@,
                data: data@,
            }),
            Event::IdentifyFailed { peer, timeout } => event@ == (EventView::IdentifyFailed {
                peer,
                timeout,
            }),
            Event::IdentifyReceived { peer, listen_addrs, protocols } => {
                &&& event@ is IdentifyReceived
                &&& event@->IdentifyReceived_peer == peer
                &&& event@->listen_addrs.len() == listen_addrs@.len()
                &&& forall|i: int|
                    0 <= i < listen_addrs@.len() ==> #[trigger] event@->listen_addrs[i]
                        == address_parts(listen_addrs@[i])
                &&& event@->protocols.len() == protocols@.len()
                &&& forall|i: int|
                    0 <= i < protocols@.len() ==> #[trigger] event@->protocols[i] == protocols@[i]@
            },
            Event::Tick => event@ == EventView::Tick,
            Event::Other => event@ == EventView::Other,
        },
{
}

/// An action is seen whole: its kind, and everything that it holds.
pub proof fn actions_are_seen_whole(action: Action)
    ensures
        match action {
            Action::Listen { address } => action@ == (ActionView::Listen {
                address: address_parts(address),
            }),
            Action::Dial { address } => action@ == (ActionView::Dial {
                address: address_parts(address),
            }),
            Action::AddExternalAddress { address } => action@ == (ActionView::AddExternalAddress {
                address: address_parts(address),
            }),
            Action::ReportListening { address } => action@ == (ActionView::ReportListening {
                address: address_parts(address),
            }),
            Action::Publish { publication } => action@ == (ActionView::Publish {
                topic: publication.topic@,
                data: publication.data@,
            }),
            Action::ReportHandshake { source } => action@ == (ActionView::ReportHandshake {
                source,
            }),
            Action::RequestFile { peer, file_id } => action@ == (ActionView::RequestFile {
                peer,
                file_id: file_id@,
            }),
            Action::AddAddress { peer, address } => action@ == (ActionView::AddAddress {
                peer,
                address: address_parts(address),
            }),
            Action::RemovePeer { peer } => action@ == (ActionView::RemovePeer { peer }),
            Action::RestartTick { secs } => action@ == (ActionView::RestartTick { secs }),
            Action::Bootstrap => action@ == ActionView::Bootstrap,
        },
{
}

/// Whatever the peer, a new listen address is told of in full, with the peer's own id at
/// its end, and last. Before that it is advertised under the external address, if the
/// peer has one, and nothing else happens.
pub proof fn new_listener_is_told_of(node: NodeView, address: Seq<Part>)
    ensures
        ({
            let actions = reaction(node, EventView::NewListenAddr { address });
            &&& actions.len() == if node.external_address is Some {
                2int
            } else {
                1
            }
            &&& actions.last() matches ActionView::ReportListening { address: told }
            &&& told.len() == address.len() + 1
            &&& told.last() == Part::Segment(Segment::P2p(node.local_peer))
            &&& told.drop_last() == address
        }),
        node.external_address matches Some(ip) ==> {
            &&& reaction(
                node,
                EventView::NewListenAddr { address },
            )[0] matches ActionView::AddExternalAddress { address: advertised }
            &&& advertised == seq![Part::Segment(Segment::Ip(ip))] + (if address.len() == 0 {
                address
            } else {
                address.skip(1)
            })
        },
{
    peer_address_names_the_peer(address, node.local_peer);
    if let Some(ip) = node.external_address {
        external_address_keeps_the_rest(ip, address);
        let rest = if address.len() == 0 {
            address
        } else {
            address.skip(1)
        };
        assert(external_parts(ip, address) =~= seq![Part::Segment(Segment::Ip(ip))] + rest);
    }
}

/// Whatever the peer, a new connection leads to the handshake in the chat.
pub proof fn new_connection_is_greeted(node: NodeView, peer: PeerId)
    ensures
        reaction(node, EventView::ConnectionEstablished { peer }) == seq![
            ActionView::Publish { topic: "ebe-nuka"@, data: encode_utf8("Handshake"@) },
        ],
{
}

/// Whatever the peer, another peer leaves the routing table whenever a connection to it
/// was closed or it did not identify itself in time. Any other failure to identify itself
/// leads to nothing.
pub proof fn lost_peer_leaves(node: NodeView, peer: PeerId)
    ensures
        reaction(node, EventView::ConnectionClosed { peer }) == seq![
            ActionView::RemovePeer { peer },
        ],
        reaction(node, EventView::IdentifyFailed { peer, timeout: true }) == seq![
            ActionView::RemovePeer { peer },
        ],
        reaction(node, EventView::IdentifyFailed { peer, timeout: false }).len() == 0,
{
}

/// Whatever the peer, another peer that takes part in routing enters the routing table
/// under every address that it listens on, in their order, each with WebRTC and its id at
/// the end. One that does not take part is not filed at all.
pub proof fn every_listen_address_is_filed(
    node: NodeView,
    peer: PeerId,
    listen_addrs: Seq<Seq<Part>>,
    protocols: Seq<Seq<char>>,
)
    ensures
        ({
            let actions = reaction(
                node,
                EventView::IdentifyReceived { peer, listen_addrs, protocols },
            );
            &&& (exists|i: int| 0 <= i < protocols.len() && protocols[i] == "/ipfs/kad/1.0.0"@) ==> {
                &&& actions.len() == listen_addrs.len()
                &&& forall|i: int|
                    0 <= i < listen_addrs.len() ==> #[trigger] actions[i]
                        == (ActionView::AddAddress {
                        peer,
                        address: listen_addrs[i].push(Part::Segment(Segment::WebRtcDirect)).push(
                            Part::Segment(Segment::P2p(peer)),
                        ),
                    })
            }
            &&& (forall|i: int| 0 <= i < protocols.len() ==> protocols[i] != "/ipfs/kad/1.0.0"@) ==> {
                actions.len() == 0
            }
        }),
{
}

/// Whatever the peer, what a message leads to depends on its topic, its text and its
/// source alone: a handshake in the chat is told of, an announced file is requested from
/// its source, and any other message leads to nothing.
pub proof fn messages_lead_to(
    node: NodeView,
    source: Option<PeerId>,
    topic: Seq<char>,
    data: Seq<u8>,
)
    ensures
        ({
            let actions = reaction(node, EventView::Message { source, topic, data });
            &&& topic == "ebe-nuka"@ && decode_utf8(data) == "Handshake"@ ==> actions == seq![
                ActionView::ReportHandshake { source },
            ]
            &&& topic == "ebe-nuka"@ && decode_utf8(data) != "Handshake"@ ==> actions.len() == 0
            &&& topic == "ebe-nuka-file"@ ==> (source matches Some(peer) ==> actions == seq![
                ActionView::RequestFile { peer, file_id: decode_utf8(data) },
            ])
            &&& topic != "ebe-nuka"@ && topic != "ebe-nuka-file"@ ==> actions.len() == 0
        }),
{
    topics_differ();
    let text = decode_utf8(data);
    assert(message_reaction(source, "ebe-nuka"@, "Handshake"@) =~= seq![
        ActionView::ReportHandshake { source },
    ]);
    if let Some(peer) = source {
        assert(message_reaction(source, "ebe-nuka-file"@, text) =~= seq![
            ActionView::RequestFile { peer, file_id: text },
        ]);
    }
}

/// Whatever the peer, events that it does not know lead to nothing.
pub proof fn other_events_lead_to_nothing(node: NodeView)
    ensures
        reaction(node, EventView::Other).len() == 0,
{
}

/// A message is kept as the whole of its text, behind everything that was kept before,
/// whatever its source and topic. No other event touches the messages.
pub proof fn messages_are_kept_whole(messages: Seq<Seq<char>>, event: EventView)
    ensures
        match event {
            EventView::Message { data, .. } => {
                &&& recorded(messages, event).len() == messages.len() + 1
                &&& recorded(messages, event).last() == decode_utf8(data)
                &&& recorded(messages, event).drop_last() == messages
            },
            _ => recorded(messages, event) == messages,
        },
{
    if event is Message {
        assert(recorded(messages, event).drop_last() =~= messages);
    }
}

/// Exactly two kinds of event are refused: a message that is not UTF-8, which is not kept
/// either, and a file announced without a source.
pub proof fn refused_events(event: EventView)
    ensures
        readable(event) <==> !(event is Message && !valid_utf8(event->data)),
        accepted(event) <==> readable(event) && !(event is Message && event->topic
            == "ebe-nuka-file"@ && event->source is None),
{
}

/// What [`Node::handle`] gives for an event, action by action, for the events that lead to
/// addresses: every address of the event is there, whole, and none besides.
pub proof fn handled_addresses(node: NodeView, event: Event, actions: Seq<Action>)
    requires
        action_views(actions) == reaction(node, event@),
    ensures
        event matches Event::IdentifyReceived { peer, listen_addrs, protocols } ==> {
            &&& (exists|i: int| 0 <= i < protocols@.len() && #[trigger] protocols@[i]@
                == "/ipfs/kad/1.0.0"@) ==> {
                &&& actions.len() == listen_addrs@.len()
                &&& forall|i: int|
                    0 <= i < listen_addrs@.len() ==> (#[trigger] actions[i]
                        matches Action::AddAddress { peer: filed, address } && filed == peer
                        && address_parts(address) == address_parts(listen_addrs@[i]).push(
                        Part::Segment(Segment::WebRtcDirect),
                    ).push(Part::Segment(Segment::P2p(peer))))
            }
            &&& (forall|i: int|
                0 <= i < protocols@.len() ==> #[trigger] protocols@[i]@ != "/ipfs/kad/1.0.0"@) ==> {
                actions.len() == 0
            }
        },
        event matches Event::NewListenAddr { address } ==> {
            &&& actions.len() == if node.external_address is Some {
                2int
            } else {
                1
            }
            &&& actions.last() matches Action::ReportListening { address: told }
            &&& address_parts(told) == address_parts(address).push(
                Part::Segment(Segment::P2p(node.local_peer)),
            )
        },
        event matches Event::ConnectionClosed { peer } ==> actions == seq![
            Action::RemovePeer { peer },
        ],
{
    events_are_seen_whole(event);
    action_lists_are_complete(actions);
    match event {
        Event::IdentifyReceived { peer, listen_addrs, protocols } => {
            let addresses = event@->listen_addrs;
            let names = event@->protocols;
            every_listen_address_is_filed(node, peer, addresses, names);
            if exists|i: int|
                0 <= i < protocols@.len() && #[trigger] protocols@[i]@ == "/ipfs/kad/1.0.0"@ {
                let at = choose|i: int|
                    0 <= i < protocols@.len() && #[trigger] protocols@[i]@ == "/ipfs/kad/1.0.0"@;
                assert(names[at] == "/ipfs/kad/1.0.0"@);
                assert forall|i: int| 0 <= i < listen_addrs@.len() implies (#[trigger] actions[i]
                    matches Action::AddAddress { peer: filed, address } && filed == peer
                    && address_parts(address) == address_parts(listen_addrs@[i]).push(
                    Part::Segment(Segment::WebRtcDirect),
                ).push(Part::Segment(Segment::P2p(peer)))) by {
                    assert(action_views(actions)[i] == actions[i]@);
                    assert(addresses[i] == address_parts(listen_addrs@[i]));
                    actions_are_seen_whole(actions[i]);
                }
            }
        },
        Event::NewListenAddr { address } => {
            new_listener_is_told_of(node, address_parts(address));
            assert(action_views(actions).last() == actions.last()@);
            actions_are_seen_whole(actions.last());
            assert(action_views(actions).last()->ReportListening_address =~= address_parts(
                address,
            ).push(Part::Segment(Segment::P2p(node.local_peer))));
        },
        Event::ConnectionClosed { peer } => {
            lost_peer_leaves(node, peer);
            assert(action_views(actions)[0] == actions[0]@);
            actions_are_seen_whole(actions[0]);
            assert(actions =~= seq![Action::RemovePeer { peer }]);
        },
        _ => {},
    }
}

/// A sent message that could be published is kept, behind everything that was kept before;
/// one that could not leaves the messages as they are.
pub proof fn sent_messages_are_kept_whole(messages: Seq<Seq<char>>, message: Seq<char>)
    ensures
        after_send(messages, message, true).len() == messages.len() + 1,
        after_send(messages, message, true).last() == message,
        after_send(messages, message, true).drop_last() == messages,
        after_send(messages, message, false) == messages,
{
    assert(after_send(messages, message, true).drop_last() =~= messages);
}

/// An answer passes on what succeeded, and says of a failure what failed and then, in
/// full, why.
pub proof fn answers_say_everything<T>(
    result: Result<T, String>,
    failure: Seq<char>,
    answer: Result<T, String>,
)
    requires
        explained(result, failure, answer),
    ensures
        result is Ok <==> answer is Ok,
        result matches Ok(value) ==> answer->Ok_0 == value,
        result matches Err(reason) ==> {
            &&& answer->Err_0@.len() == failure.len() + reason@.len()
            &&& answer->Err_0@.take(failure.len() as int) == failure
            &&& answer->Err_0@.skip(failure.len() as int) == reason@
        },
{
    if let Err(reason) = result {
        assert(answer->Err_0@.take(failure.len() as int) =~= failure);
        assert(answer->Err_0@.skip(failure.len() as int) =~= reason@);
    }
}

/// The router of the chat has exactly the two topics, keeps its mesh between one and three
/// peers, sends its own messages to everybody, and recognises a message by the hash of the
/// whole of its data.
pub proof fn chat_router(settings: GossipSettings, topic: Seq<char>, data: Seq<u8>)
    ensures
        chat_topics().contains(topic) <==> topic == "ebe-nuka"@ || topic == "ebe-nuka-file"@,
        chat_settings().validation == Validation::Permissive,
        chat_settings().mesh_outbound_min == 1 == chat_settings().mesh_n_low,
        chat_settings().mesh_n == 2,
        chat_settings().mesh_n_high == 3,
        chat_settings().flood_publish,
        content_config(settings).settings == settings,
        spelled_number((content_config(settings).message_id)(data)) == DefaultHasher::spec_finish(
            hash_writes(data, usize::BITS as nat, endianness() is Little),
        ),
        (content_config(settings).message_id)(data) == decimal(
            DefaultHasher::spec_finish(
                hash_writes(data, usize::BITS as nat, endianness() is Little),
            ) as nat,
        ),
{
    message_id_covers_all_data(data);
}

/// A peer identifies itself under its own id, with the version and at the interval that it
/// was given, whatever they are, and tells nobody of new addresses unasked.
pub proof fn identification_is_as_set(peer: PeerId, version: Seq<char>, interval_secs: u64)
    ensures
        default_identify(peer, version, interval_secs).peer == peer,
        default_identify(peer, version, interval_secs).protocol_version == version,
        default_identify(peer, version, interval_secs).interval_secs == interval_secs,
        default_identify(peer, version, interval_secs).initial_delay_millis == 0,
        !default_identify(peer, version, interval_secs).push_listen_addr_updates,
        default_identify(peer, version, interval_secs).cache_size == 100,
        default_identify(peer, version, interval_secs).agent_version == "rust-libp2p/0.43.1"@,
{
}

/// A peer relays under its own id, within the limits that it was given, whatever they are,
/// and limits no rates. A reservation lasts an hour, a circuit two minutes.
pub proof fn relay_is_as_set(peer: PeerId, limits: RelayLimits)
    ensures
        default_relay(peer, limits).peer == peer,
        default_relay(peer, limits).limits == limits,
        default_relay(peer, limits).reservation_rate_limiters == 0,
        default_relay(peer, limits).circuit_src_rate_limiters == 0,
        default_relay(peer, limits).max_circuit_secs == 120,
        default_relay(peer, limits).reservation_secs == 3600,
        default_relay(peer, limits).max_circuit_bytes == 128 * 1024,
{
}

/// Records are copied and published anew before they lapse, and the store has room for
/// every copy of a provider record.
pub proof fn records_are_renewed_in_time()
    ensures
        own_protocols() == seq!["/ipfs/kad/1.0.0"@],
        ({
            let records = default_routing().records;
            &&& !records.filtered
            &&& records.replication_secs->0 < records.publication_secs->0 < records.ttl_secs->0
            &&& records.provider_publication_secs->0 < records.provider_ttl_secs->0
        }),
        default_routing().store.max_providers_per_key
            == default_routing().queries.replication_factor,
        default_routing().inserts_on_connection,
{
}

/// A routing table looks at three peers at a time until it has the twenty closest, for a
/// minute; it keeps records for a day and a half, copies them every hour and publishes them
/// daily; its store holds 1024 records of at most 65 kibibytes.
pub proof fn routing_settings()
    ensures
        ({
            let queries = default_routing().queries;
            &&& queries.parallelism == 3
            &&& queries.replication_factor == 20
            &&& queries.timeout_secs == 60
            &&& !queries.disjoint_paths
            &&& queries.cached_peers == Some(1nat)
        }),
        ({
            let records = default_routing().records;
            &&& records.ttl_secs == Some(36 * 3600nat)
            &&& records.replication_secs == Some(3600nat)
            &&& records.publication_secs == Some(24 * 3600nat)
            &&& records.provider_ttl_secs == Some(24 * 3600nat)
            &&& records.provider_publication_secs == Some(12 * 3600nat)
        }),
        ({
            let store = default_routing().store;
            &&& store.max_records == 1024 == store.max_provided_keys
            &&& store.max_value_bytes == 65 * 1024
        }),
        default_routing().max_packet_size == 16 * 1024,
        default_routing().pending_timeout_secs == 60,
        default_routing().idle_timeout_secs == 10,
{
}

/// The settings of every peer: it is found under one set of names, identifies itself each
/// minute, drops a connection that was idle for a minute, and relays for anybody, though
/// for nobody more than a hundred times at once.
pub proof fn peer_settings()
    ensures
        TICK_INTERVAL_SECS == 15,
        KADEMLIA_PROTOCOL_NAME@ == "/ipfs/kad/1.0.0"@,
        FILE_EXCHANGE_PROTOCOL@ == "/ebe-nuka-file/1"@,
        IDENTIFY_PROTOCOL_VERSION@ == "/ipfs/0.1.0"@,
        GOSSIPSUB_CHAT_TOPIC@ == "ebe-nuka"@,
        GOSSIPSUB_CHAT_FILE_TOPIC@ == "ebe-nuka-file"@,
        HANDSHAKE@ == "Handshake"@,
        LOCAL_KEY_PATH@ == "./local_key"@,
        LOCAL_CERT_PATH@ == "./cert.pem"@,
        PORT_WEBRTC == 9090,
        PORT_QUIC == 9091,
        IDENTIFY_INTERVAL_SECS == 60,
        IDLE_CONNECTION_TIMEOUT_SECS == 60,
        RELAY_MAX_RESERVATIONS == usize::MAX,
        RELAY_MAX_RESERVATIONS_PER_PEER == 100,
        RELAY_MAX_CIRCUITS == usize::MAX,
        RELAY_MAX_CIRCUITS_PER_PEER == 100,
{
}

} // verus!
