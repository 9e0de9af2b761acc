[package]
name = "ebe_nuka"
version = "0.1.0"
edition = "2021"
publish = false

[dependencies]
anyhow = { version = "=1.0.104", default-features = false, features = ["std"] }
async-trait = "=0.1.92"
clap = { version = "4.4", default-features = false, features = ["std", "derive", "env"] }
dotenv = "=0.15.0"
env_logger = { version = "=0.10.2", default-features = false }
futures = "=0.3.34"
futures-timer = "=3.0.4"
libp2p = { version = "=0.52.4", default-features = false, features = ["identify", "gossipsub", "macros", "relay", "kad", "ed25519", "request-response", "memory-connection-limits"] }
libp2p-webrtc = { version = "=0.6.0-alpha", features = ["tokio", "pem"] }
log = "=0.4.35"
pem = "=1.1.1"
rand = "=0.8.8"
tokio = { version = "=1.54.1", default-features = false, features = ["rt-multi-thread", "macros", "fs"] }
