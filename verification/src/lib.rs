//! The decisions of a chat peer: which addresses it listens on and advertises,
//! what it does about each network event, which messages it keeps, and what it
//! stores between runs. Everything that touches a socket, a file or a clock is
//! left to the program around this crate.

pub mod address;
pub mod certificate;
pub mod commands;
pub mod gossip;
pub mod identity;
pub mod laws;
pub mod message;
pub mod node;
pub mod settings;
pub mod state;
pub mod swarm;
