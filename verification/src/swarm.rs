//! The other protocols of a peer: identification, routing, relaying and the exchange of
//! files.

use libp2p::identity::Keypair;
use libp2p::kad::store::MemoryStore;
use libp2p::{identify, kad, relay, PeerId, StreamProtocol};
use std::time::Duration;
use vstd::prelude::*;

use crate::identity::{identity_peer, local_peer};
use crate::settings::{
    FILE_EXCHANGE_PROTOCOL, IDENTIFY_INTERVAL_SECS, IDENTIFY_PROTOCOL_VERSION,
    KADEMLIA_PROTOCOL_NAME, RELAY_MAX_CIRCUITS, RELAY_MAX_CIRCUITS_PER_PEER,
    RELAY_MAX_RESERVATIONS, RELAY_MAX_RESERVATIONS_PER_PEER,
};

verus! {

/// `libp2p::identify::Behaviour`; see [`identify_state`].
#[verifier::external_type_specification]
#[verifier::external_body]
pub struct ExIdentify(libp2p::identify::Behaviour);

/// `libp2p::relay::Behaviour`; see [`relay_state`].
#[verifier::external_type_specification]
#[verifier::external_body]
pub struct ExRelay(libp2p::relay::Behaviour);

/// `libp2p::kad::Behaviour`; see [`routing_state`].
#[verifier::external_type_specification]
#[verifier::external_body]
#[verifier::reject_recursive_types(TStore)]
pub struct ExRouting<TStore>(libp2p::kad::Behaviour<TStore>);

/// `libp2p::kad::store::MemoryStore`, a parameter of the routing table.
#[verifier::external_type_specification]
#[verifier::external_body]
pub struct ExMemoryStore(libp2p::kad::store::MemoryStore);

/// How a peer identifies itself, and how often; whether it tells others of its new
/// addresses unasked, and of how many peers it remembers the addresses.
pub struct IdentifyState {
    pub peer: PeerId,
    pub protocol_version: Seq<char>,
    pub agent_version: Seq<char>,
    pub initial_delay_millis: nat,
    pub interval_secs: u64,
    pub push_listen_addr_updates: bool,
    pub cache_size: nat,
}

/// How much a peer relays.
#[derive(Clone, Copy, Debug, PartialEq, Eq, Structural)]
pub struct RelayLimits {
    pub max_reservations: usize,
    pub max_reservations_per_peer: usize,
    pub max_circuits: usize,
    pub max_circuits_per_peer: usize,
}

/// A relay: whose it is, how much it relays, how long reservations and circuits last,
/// how much a circuit carries, and how many limiters watch the rate of reservations and
/// the rate of circuits.
pub struct RelayState {
    pub peer: PeerId,
    pub limits: RelayLimits,
    pub reservation_secs: nat,
    pub max_circuit_secs: nat,
    pub max_circuit_bytes: nat,
    pub reservation_rate_limiters: nat,
    pub circuit_src_rate_limiters: nat,
}

/// Which side of an exchange a peer takes.
#[derive(Clone, Copy, Debug, PartialEq, Eq, Structural)]
pub enum Support {
    /// It answers requests.
    Inbound,
    /// It makes requests.
    Outbound,
    /// It does both.
    Full,
}

/// How a routing table looks for peers and records.
pub struct QuerySettings {
    pub timeout_secs: nat,
    pub replication_factor: nat,
    pub parallelism: nat,
    pub disjoint_paths: bool,
    pub cached_peers: Option<nat>,
}

/// How a routing table takes in records and keeps them alive.
pub struct RecordSettings {
    pub filtered: bool,
    pub ttl_secs: Option<nat>,
    pub replication_secs: Option<nat>,
    pub publication_secs: Option<nat>,
    pub provider_ttl_secs: Option<nat>,
    pub provider_publication_secs: Option<nat>,
}

/// How much the store of a routing table holds.
pub struct StoreLimits {
    pub max_records: nat,
    pub max_value_bytes: nat,
    pub max_providers_per_key: nat,
    pub max_provided_keys: nat,
}

/// The settings of a routing table beside its protocols.
pub struct RoutingSettings {
    pub max_packet_size: nat,
    pub pending_timeout_secs: nat,
    pub idle_timeout_secs: nat,
    pub inserts_on_connection: bool,
    pub queries: QuerySettings,
    pub records: RecordSettings,
    pub store: StoreLimits,
}

/// A routing table: whose it is, the protocols it speaks, the peers in it and its other
/// settings.
pub struct RoutingState {
    pub peer: PeerId,
    pub protocols: Seq<Seq<char>>,
    pub peers: Set<PeerId>,
    pub settings: RoutingSettings,
}

/// An identification that has the defaults but for the version and the interval.
pub open spec fn default_identify(
    peer: PeerId,
    protocol_version: Seq<char>,
    interval_secs: u64,
) -> IdentifyState {
    IdentifyState {
        peer,
        protocol_version,
        agent_version: "rust-libp2p/0.43.1"@,
        initial_delay_millis: 0,
        interval_secs,
        push_listen_addr_updates: false,
        cache_size: 100,
    }
}

/// A relay that has the defaults but for the limits and for the rates, which it does not
/// limit.
pub open spec fn default_relay(peer: PeerId, limits: RelayLimits) -> RelayState {
    RelayState {
        peer,
        limits,
        reservation_secs: 3600,
        max_circuit_secs: 120,
        max_circuit_bytes: 131072,
        reservation_rate_limiters: 0,
        circuit_src_rate_limiters: 0,
    }
}

/// The default settings of a routing table and its store.
pub open spec fn default_routing() -> RoutingSettings {
    RoutingSettings {
        max_packet_size: 16384,
        pending_timeout_secs: 60,
        idle_timeout_secs: 10,
        inserts_on_connection: true,
        queries: QuerySettings {
            timeout_secs: 60,
            replication_factor: 20,
            parallelism: 3,
            disjoint_paths: false,
            cached_peers: Some(1),
        },
        records: RecordSettings {
            filtered: false,
            ttl_secs: Some(129600),
            replication_secs: Some(3600),
            publication_secs: Some(86400),
            provider_ttl_secs: Some(86400),
            provider_publication_secs: Some(43200),
        },
        store: StoreLimits {
            max_records: 1024,
            max_value_bytes: 66560,
            max_providers_per_key: 20,
            max_provided_keys: 1024,
        },
    }
}

/// The state of the identification.
pub uninterp spec fn identify_state(behaviour: identify::Behaviour) -> IdentifyState;

/// The state of the relay.
pub uninterp spec fn relay_state(behaviour: relay::Behaviour) -> RelayState;

/// The state of the routing table.
pub uninterp spec fn routing_state(behaviour: kad::Behaviour<MemoryStore>) -> RoutingState;

/// `identify::Behaviour::new`, with a configuration that has the defaults but for
/// the version and the interval.
#[verifier::external_body]
fn new_identify(identity: &Keypair, protocol_version: String, interval_secs: u64) -> (res:
    identify::Behaviour)
    ensures
        identify_state(res) == default_identify(
            identity_peer(*identity),
            protocol_version@,
            interval_secs,
        ),
{
    let config = identify::Config::new(protocol_version, identity.public());
    identify::Behaviour::new(config.with_interval(Duration::from_secs(interval_secs)))
}

/// `relay::Behaviour::new`, with a configuration that has the given limits, no rate
/// limiters, and the defaults for how long reservations and circuits last and how much
/// a circuit carries.
#[verifier::external_body]
fn new_relay(peer: PeerId, limits: RelayLimits) -> (res: relay::Behaviour)
    ensures
        relay_state(res) == default_relay(peer, limits),
{
    let config = relay::Config {
        max_reservations: limits.max_reservations,
        max_reservations_per_peer: limits.max_reservations_per_peer,
        reservation_rate_limiters: Vec::new(),
        circuit_src_rate_limiters: Vec::new(),
        max_circuits: limits.max_circuits,
        max_circuits_per_peer: limits.max_circuits_per_peer,
        ..Default::default()
    };
    relay::Behaviour::new(peer, config)
}

/// `kad::Behaviour::with_config`, with an empty store and a configuration that both have
/// the defaults but for the name of the protocol. A name has to start with a slash.
#[verifier::external_body]
fn new_routing_table(peer: PeerId, protocol: &'static str) -> (res: kad::Behaviour<MemoryStore>)
    requires
        protocol@.len() > 0,
        protocol@[0] == '/',
    ensures
        routing_state(res) == (RoutingState {
            peer,
            protocols: seq![protocol@],
            peers: Set::empty(),
            settings: default_routing(),
        }),
{
    let mut config = kad::Config::default();
    config.set_protocol_names(vec![StreamProtocol::new(protocol)]);
    kad::Behaviour::with_config(peer, MemoryStore::new(peer), config)
}

/// The identification of the peer that holds the identity.
pub fn identification(identity: &Keypair) -> (res: identify::Behaviour)
    ensures
        identify_state(res) == default_identify(
            identity_peer(*identity),
            IDENTIFY_PROTOCOL_VERSION@,
            IDENTIFY_INTERVAL_SECS,
        ),
{
    new_identify(identity, IDENTIFY_PROTOCOL_VERSION.to_owned(), IDENTIFY_INTERVAL_SECS)
}

/// The relay of the peer that holds the identity. It limits numbers, but no rates.
pub fn relay(identity: &Keypair) -> (res: relay::Behaviour)
    ensures
        relay_state(res) == default_relay(
            identity_peer(*identity),
            RelayLimits {
                max_reservations: RELAY_MAX_RESERVATIONS,
                max_reservations_per_peer: RELAY_MAX_RESERVATIONS_PER_PEER,
                max_circuits: RELAY_MAX_CIRCUITS,
                max_circuits_per_peer: RELAY_MAX_CIRCUITS_PER_PEER,
            },
        ),
{
    new_relay(
        local_peer(identity),
        RelayLimits {
            max_reservations: RELAY_MAX_RESERVATIONS,
            max_reservations_per_peer: RELAY_MAX_RESERVATIONS_PER_PEER,
            max_circuits: RELAY_MAX_CIRCUITS,
            max_circuits_per_peer: RELAY_MAX_CIRCUITS_PER_PEER,
        },
    )
}

/// The protocols of the routing table.
pub open spec fn own_protocols() -> Seq<Seq<char>> {
    seq![KADEMLIA_PROTOCOL_NAME@]
}

/// The routing table of the peer that holds the identity, with nobody in it yet.
pub fn routing_table(identity: &Keypair) -> (res: kad::Behaviour<MemoryStore>)
    ensures
        routing_state(res) == (RoutingState {
            peer: identity_peer(*identity),
            protocols: own_protocols(),
            peers: Set::empty(),
            settings: default_routing(),
        }),
{
    proof {
        reveal_strlit("/ipfs/kad/1.0.0");
    }
    new_routing_table(local_peer(identity), KADEMLIA_PROTOCOL_NAME)
}

/// The one protocol of the file exchange and the side that a peer takes in it: it asks
/// for files, and serves none.
pub fn file_exchange() -> (res: (&'static str, Support))
    ensures
        res.0@ == FILE_EXCHANGE_PROTOCOL@,
        res.1 == Support::Outbound,
{
    (FILE_EXCHANGE_PROTOCOL, Support::Outbound)
}

} // verus!
