//! The public edge: client-facing request validation, session storage layout, token
//! claims and the routing decisions of the HTTP handlers.

pub mod config;
pub mod message;
pub mod redis;
pub mod service;
pub mod token;
