//! The fixed settings of a peer.

use vstd::prelude::*;

verus! {

/// Seconds between two ticks of the event loop.
pub const TICK_INTERVAL_SECS: u64 = 15;

/// Protocol name by which a peer shows that it takes part in the routing table.
pub const KADEMLIA_PROTOCOL_NAME: &'static str = "/ipfs/kad/1.0.0";

/// Protocol name of the file exchange.
pub const FILE_EXCHANGE_PROTOCOL: &'static str = "/ebe-nuka-file/1";

/// UDP port of the WebRTC listener.
pub const PORT_WEBRTC: u16 = 9090;

/// UDP port of the QUIC listener.
pub const PORT_QUIC: u16 = 9091;

/// Where the identity is stored.
pub const LOCAL_KEY_PATH: &'static str = "./local_key";

/// Where the certificate is stored.
pub const LOCAL_CERT_PATH: &'static str = "./cert.pem";

/// Topic of the chat.
pub const GOSSIPSUB_CHAT_TOPIC: &'static str = "ebe-nuka";

/// Topic on which files are announced by their id.
pub const GOSSIPSUB_CHAT_FILE_TOPIC: &'static str = "ebe-nuka-file";

/// Text that a peer publishes on every new connection.
pub const HANDSHAKE: &'static str = "Handshake";

/// Protocol version under which a peer identifies itself.
pub const IDENTIFY_PROTOCOL_VERSION: &'static str = "/ipfs/0.1.0";

/// Seconds between two identifications of a connected peer.
pub const IDENTIFY_INTERVAL_SECS: u64 = 60;

/// Seconds after which a connection that nothing uses is closed.
pub const IDLE_CONNECTION_TIMEOUT_SECS: u64 = 60;

/// Reservations that a peer relays for, all peers together.
pub const RELAY_MAX_RESERVATIONS: usize = usize::MAX;

/// Reservations that a peer relays for, for one peer.
pub const RELAY_MAX_RESERVATIONS_PER_PEER: usize = 100;

/// Circuits that a peer relays, all peers together.
pub const RELAY_MAX_CIRCUITS: usize = usize::MAX;

/// Circuits that a peer relays, for one peer.
pub const RELAY_MAX_CIRCUITS_PER_PEER: usize = 100;

} // verus!
