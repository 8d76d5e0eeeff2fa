//! The browser client's logic: nickname and room-id checks, theme and settings data,
//! connector and signaling messages, room membership, and the SDP offer rewrite.

pub mod sdp_text;
pub mod webrtc_room;
pub mod local_media;
pub mod nickname;
pub mod handlers;
pub mod theme;
pub mod components;
pub mod connector_api;
pub mod signaling;
pub mod app;
