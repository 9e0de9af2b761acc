use ebe_nuka::gossip::{gossip_config, gossip_router};
use ebe_nuka::message::message_id;
use libp2p::gossipsub::{IdentTopic, Message, ValidationMode};
use libp2p::identity::Keypair;
use libp2p::PeerId;

#[test]
fn configuration_of_the_chat() {
    let config = gossip_config();
    assert!(matches!(config.validation_mode(), ValidationMode::Permissive));
    assert_eq!(config.mesh_outbound_min(), 1);
    assert_eq!(config.mesh_n_low(), 1);
    assert_eq!(config.mesh_n(), 2);
    assert_eq!(config.mesh_n_high(), 3);
    assert!(config.flood_publish());
}

#[test]
fn message_ids_of_the_chat() {
    let config = gossip_config();
    let message = |source: Option<PeerId>, topic: &str| Message {
        source,
        data: b"hello".to_vec(),
        sequence_number: None,
        topic: IdentTopic::new(topic).hash(),
    };
    let expected = message_id(&b"hello".to_vec()).into_bytes();
    let anonymous = message(None, "ebe-nuka");
    let signed = message(Some(PeerId::random()), "ebe-nuka-file");
    assert_eq!(config.message_id(&anonymous).0, expected);
    assert_eq!(config.message_id(&signed).0, expected);
}

#[test]
fn router_subscribes_to_both_topics() {
    let router = gossip_router(&Keypair::generate_ed25519());
    let mut topics: Vec<String> = router.topics().map(|topic| topic.to_string()).collect();
    topics.sort();
    assert_eq!(topics, ["ebe-nuka", "ebe-nuka-file"]);
    assert_eq!(router.all_peers().count(), 0);
}

#[test]
fn subscribing_again_is_nothing_new() {
    let mut router = gossip_router(&Keypair::generate_ed25519());
    assert!(!router.subscribe(&IdentTopic::new("ebe-nuka")).unwrap());
    assert!(router.subscribe(&IdentTopic::new("another")).unwrap());
}
