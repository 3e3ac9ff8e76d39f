//! Relay between a game server and a chat platform.
//!
//! The library holds the verified core of the relay: the byte-cursor
//! codec for null-terminated strings, the inbound protocol dispatcher,
//! the registry of active outbound connections, the read-loop step
//! logic, and the outbound frame encoder. Socket and network plumbing
//! lives outside the library and hands it plain values.

pub mod codec;
pub mod color;
pub mod outbound;
pub mod protocol;
pub mod registry;
pub mod relay;
pub mod render;
pub mod steam;
