//! The signaling, room-manager and supervisor services.

pub mod room_manager;
pub mod signaling;
pub mod supervisor;
