//! The signaling service: session and room records, the purge protocol, and the
//! decisions of the WebSocket protocol.

pub mod redis;
pub mod state;
pub mod websocket;
pub mod protocol;
pub mod membership;
