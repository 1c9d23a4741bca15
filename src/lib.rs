//! Protocol engine of a multi-hop LoRa gateway mesh: packet codec, message
//! integrity codes, relay-path bookkeeping, heartbeats and forwarding policy.
pub mod mic;
pub mod packets;
pub mod config;
pub mod relay_path;
pub mod mesh;
pub mod heartbeat;
