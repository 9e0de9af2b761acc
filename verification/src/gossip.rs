//! The gossip router of a peer: how it is configured and what it subscribes to.

use libp2p::gossipsub;
use libp2p::identity::Keypair;
use libp2p::PeerId;
use vstd::prelude::*;

use crate::message::{content_id, message_id};
use crate::settings::{GOSSIPSUB_CHAT_FILE_TOPIC, GOSSIPSUB_CHAT_TOPIC};

verus! {

/// `libp2p::gossipsub::Config`; see [`config_state`].
#[verifier::external_type_specification]
#[verifier::external_body]
pub struct ExConfig(libp2p::gossipsub::Config);

/// `libp2p::gossipsub::Behaviour`; see [`router_state`].
#[verifier::external_type_specification]
#[verifier::external_body]
#[verifier::reject_recursive_types(D)]
#[verifier::reject_recursive_types(F)]
pub struct ExBehaviour<D, F>(libp2p::gossipsub::Behaviour<D, F>);

/// `libp2p::gossipsub::IdentityTransform`, a parameter of the router.
#[verifier::external_type_specification]
#[verifier::external_body]
pub struct ExIdentityTransform(libp2p::gossipsub::IdentityTransform);

/// `libp2p::gossipsub::AllowAllSubscriptionFilter`, a parameter of the router.
#[verifier::external_type_specification]
#[verifier::external_body]
pub struct ExAllowAllSubscriptionFilter(libp2p::gossipsub::AllowAllSubscriptionFilter);

/// `libp2p::gossipsub::SubscriptionError`, carried through unread.
#[verifier::external_type_specification]
#[verifier::external_body]
pub struct ExSubscriptionError(libp2p::gossipsub::SubscriptionError);

/// What is asked of the author, sequence number and signature of a message.
#[derive(Clone, Copy, Debug, PartialEq, Eq, Structural)]
pub enum Validation {
    Strict,
    Permissive,
    Anonymous,
    Unchecked,
}

/// The settings of the router that differ from one peer program to the next.
#[derive(Clone, Copy, Debug, PartialEq, Eq, Structural)]
pub struct GossipSettings {
    pub validation: Validation,
    pub mesh_outbound_min: usize,
    pub mesh_n_low: usize,
    pub mesh_n: usize,
    pub mesh_n_high: usize,
    pub flood_publish: bool,
}

impl GossipSettings {
    /// Whether the sizes of the mesh go together.
    pub open spec fn consistent(self) -> bool {
        &&& self.mesh_outbound_min <= self.mesh_n_low <= self.mesh_n <= self.mesh_n_high
        &&& self.mesh_outbound_min * 2 <= self.mesh_n
    }
}

/// A configuration that has the defaults but for some settings and for the id of a
/// message, which it takes from the message's data alone.
pub struct ConfigState {
    pub settings: GossipSettings,
    pub message_id: spec_fn(Seq<u8>) -> Seq<char>,
}

/// The state of a router: the key that signs its messages, its configuration, the
/// topics it subscribes to and the peers whose topics it knows.
pub struct RouterState {
    pub signer: Keypair,
    pub config: ConfigState,
    pub topics: Set<Seq<char>>,
    pub peers: Set<PeerId>,
}

/// What a configuration says, if it is one that [`ConfigState`] describes.
pub uninterp spec fn config_state(config: gossipsub::Config) -> Option<ConfigState>;

/// The state of a router.
pub uninterp spec fn router_state(router: gossipsub::Behaviour) -> RouterState;

/// The configuration with the given settings, in which a message has the id that
/// [`message_id`] gives its data.
pub open spec fn content_config(settings: GossipSettings) -> ConfigState {
    ConfigState { settings, message_id: |data: Seq<u8>| content_id(data) }
}

/// `ConfigBuilder::build`, after the settings were made on a builder with the
/// defaults: fails exactly on sizes that do not go together.
#[verifier::external_body]
fn build_config(settings: &GossipSettings) -> (res: Result<gossipsub::Config, &'static str>)
    requires
        settings.mesh_outbound_min * 2 <= usize::MAX,
    ensures
        res is Ok <==> settings.consistent(),
        res matches Ok(config) ==> config_state(config) == Some(content_config(*settings)),
{
    gossipsub::ConfigBuilder::default()
        .validation_mode(match settings.validation {
            Validation::Strict => gossipsub::ValidationMode::Strict,
            Validation::Permissive => gossipsub::ValidationMode::Permissive,
            Validation::Anonymous => gossipsub::ValidationMode::Anonymous,
            Validation::Unchecked => gossipsub::ValidationMode::None,
        })
        .message_id_fn(|message: &gossipsub::Message| message_id(&message.data).into())
        .mesh_outbound_min(settings.mesh_outbound_min)
        .mesh_n_low(settings.mesh_n_low)
        .mesh_n(settings.mesh_n)
        .mesh_n_high(settings.mesh_n_high)
        .flood_publish(settings.flood_publish)
        .build()
}

/// `gossipsub::Behaviour::new` with signed messages: a router with no topics and no
/// peers, unless signatures are forbidden.
#[verifier::external_body]
fn signing_router(identity: &Keypair, config: gossipsub::Config) -> (res: Result<
    gossipsub::Behaviour,
    &'static str,
>)
    requires
        config_state(config) is Some,
    ensures
        res is Ok <==> config_state(config)->0.settings.validation != Validation::Anonymous,
        res matches Ok(router) ==> router_state(router) == (RouterState {
            signer: *identity,
            config: config_state(config)->0,
            topics: Set::empty(),
            peers: Set::empty(),
        }),
{
    gossipsub::Behaviour::new(gossipsub::MessageAuthenticity::Signed(identity.clone()), config)
}

/// `gossipsub::Behaviour::subscribe` of a topic under its own name. As long as no
/// peer has to be told it succeeds, and says whether the topic is new.
#[verifier::external_body]
fn subscribe(router: &mut gossipsub::Behaviour, topic: &str) -> (res: Result<
    bool,
    gossipsub::SubscriptionError,
>)
    requires
        router_state(*old(router)).peers == Set::<PeerId>::empty(),
        router_state(*old(router)).config.settings.mesh_n > 0,
    ensures
        res == Ok::<bool, gossipsub::SubscriptionError>(
            !router_state(*old(router)).topics.contains(topic@),
        ),
        router_state(*final(router)) == (RouterState {
            topics: router_state(*old(router)).topics.insert(topic@),
            ..router_state(*old(router))
        }),
{
    router.subscribe(&gossipsub::IdentTopic::new(topic))
}

/// The settings of the chat: a small mesh, and messages with or without an author.
pub open spec fn chat_settings() -> GossipSettings {
    GossipSettings {
        validation: Validation::Permissive,
        mesh_outbound_min: 1,
        mesh_n_low: 1,
        mesh_n: 2,
        mesh_n_high: 3,
        flood_publish: true,
    }
}

/// The topics of the chat's router.
pub open spec fn chat_topics() -> Set<Seq<char>> {
    set![GOSSIPSUB_CHAT_TOPIC@, GOSSIPSUB_CHAT_FILE_TOPIC@]
}

/// The configuration of the chat's router.
pub fn gossip_config() -> (res: gossipsub::Config)
    ensures
        config_state(res) == Some(content_config(chat_settings())),
{
    let settings = GossipSettings {
        validation: Validation::Permissive,
        mesh_outbound_min: 1,
        mesh_n_low: 1,
        mesh_n: 2,
        mesh_n_high: 3,
        flood_publish: true,
    };
    match build_config(&settings) {
        Ok(config) => config,
        Err(_) => vstd::pervasive::unreached(),
    }
}

/// A router for the chat that signs with the peer's key and subscribes to both
/// topics.
pub fn gossip_router(identity: &Keypair) -> (res: gossipsub::Behaviour)
    ensures
        router_state(res) == (RouterState {
            signer: *identity,
            config: content_config(chat_settings()),
            topics: chat_topics(),
            peers: Set::empty(),
        }),
{
    let mut router = match signing_router(identity, gossip_config()) {
        Ok(router) => router,
        Err(_) => vstd::pervasive::unreached(),
    };
    let _ = subscribe(&mut router, GOSSIPSUB_CHAT_TOPIC);
    let _ = subscribe(&mut router, GOSSIPSUB_CHAT_FILE_TOPIC);
    router
}

} // verus!
