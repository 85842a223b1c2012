[package]
name = "p2p_chat"
version = "0.1.0"
edition = "2021"
publish = false

[dependencies]
bincode = "=1.3.3"
blake3 = { version = "=1.8.7", features = ["pure"] }
code_location = "=1.1.1"
ed25519-dalek-blake3 = "=1.0.11"
env_logger = "=0.9.3"
futures = "=0.3.34"
log = "=0.4.35"
message-io = "=0.14.8"
primitive-types = "=0.11.1"
rand = "=0.8.8"
serde = { version = "=1.0.229", features = ["derive"] }
socket2 = "=0.4.10"
tokio = { version = "=1.54.1", features = ["full"] }
uint = "=0.9.5"
# Only to switch on `static_secrets`, without which ed25519-dalek-blake3 does not build.
x25519-dalek = { version = "=2.0.1", features = ["static_secrets"] }
