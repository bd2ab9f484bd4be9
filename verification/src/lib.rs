//! Verified core of a TCP-over-multiplexed-stream tunnel.
//!
//! The crate covers the pieces of the tunnel that are pure logic: the
//! six-byte forwarding header codec, the per-connection session state
//! machine, the accounting of in-flight relays, and the bidirectional
//! relay model with wait-for-both completion. Network transport, TLS
//! material and configuration files are the surrounding application's
//! concern; it hands this library plain values.

pub mod accounting;
pub mod config;
pub mod errors;
pub mod relay;
pub mod header;
pub mod session;
