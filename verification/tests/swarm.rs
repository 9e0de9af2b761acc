use ebe_nuka::swarm::{file_exchange, identification, relay, routing_table, Support};
use libp2p::identity::Keypair;
use libp2p::swarm::{ConnectionId, NetworkBehaviour};
use libp2p::PeerId;
use std::time::Duration;

#[test]
fn routing_table_speaks_one_protocol() {
    let mut table = routing_table(&Keypair::generate_ed25519());
    let names: Vec<String> =
        table.protocol_names().iter().map(|name| name.to_string()).collect();
    assert_eq!(names, ["/ipfs/kad/1.0.0"]);
    assert_eq!(table.kbuckets().count(), 0);
}

#[test]
fn routing_table_does_not_file_its_own_peer() {
    let identity = Keypair::generate_ed25519();
    let own = PeerId::from(identity.public());
    let mut table = routing_table(&identity);
    table.add_address(&own, "/ip4/1.2.3.4/udp/9090".parse().unwrap());
    assert_eq!(table.kbuckets().count(), 0);
    table.add_address(&PeerId::random(), "/ip4/1.2.3.4/udp/9090".parse().unwrap());
    assert_eq!(table.kbuckets().count(), 1);
}

#[test]
fn identification_and_relay_take_connections() {
    let identity = Keypair::generate_ed25519();
    let address = "/ip4/1.2.3.4/udp/9090".parse().unwrap();
    let peer = PeerId::random();
    let id = ConnectionId::new_unchecked(1);
    let mut identify = identification(&identity);
    assert!(identify
        .handle_established_outbound_connection(id, peer, &address, libp2p::core::Endpoint::Dialer)
        .is_ok());
    let mut relay = relay(&identity);
    assert!(relay
        .handle_established_outbound_connection(id, peer, &address, libp2p::core::Endpoint::Dialer)
        .is_ok());
}

#[test]
fn files_are_asked_for_and_not_served() {
    assert_eq!(file_exchange(), ("/ebe-nuka-file/1", Support::Outbound));
}

#[test]
fn defaults_of_the_identification() {
    let public = Keypair::generate_ed25519().public();
    let config = libp2p::identify::Config::new("/ipfs/0.1.0".to_owned(), public);
    assert_eq!(config.agent_version, "rust-libp2p/0.43.1");
    assert!(!config.push_listen_addr_updates);
    assert_eq!(config.cache_size, 100);
    assert!(format!("{config:?}").contains("initial_delay: 0ns"));
}

#[test]
fn defaults_of_the_relay() {
    let config = libp2p::relay::Config::default();
    assert_eq!(config.reservation_duration, Duration::from_secs(3600));
    assert_eq!(config.max_circuit_duration, Duration::from_secs(120));
    assert_eq!(config.max_circuit_bytes, 131072);
}

#[test]
fn defaults_of_the_routing_table() {
    let config = format!("{:?}", libp2p::kad::Config::default());
    for setting in [
        "max_packet_size: 16384",
        "kbucket_pending_timeout: 60s",
        "connection_idle_timeout: 10s",
        "kbucket_inserts: OnConnected",
        "timeout: 60s",
        "replication_factor: 20",
        "parallelism: 3",
        "disjoint_query_paths: false",
        "caching: Enabled { max_peers: 1 }",
        "record_filtering: Unfiltered",
        "record_ttl: Some(129600s)",
        "record_replication_interval: Some(3600s)",
        "record_publication_interval: Some(86400s)",
        "provider_record_ttl: Some(86400s)",
        "provider_publication_interval: Some(43200s)",
    ] {
        assert!(config.contains(setting), "{setting}");
    }
    let store = libp2p::kad::store::MemoryStoreConfig::default();
    assert_eq!(store.max_records, 1024);
    assert_eq!(store.max_value_bytes, 66560);
    assert_eq!(store.max_providers_per_key, 20);
    assert_eq!(store.max_provided_keys, 1024);
}
