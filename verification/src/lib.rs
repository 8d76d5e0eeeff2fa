//! Verified core logic of the Callifornia calling stack: storage keys, configuration
//! grammars, request validation, routing and load-balancing decisions, janitor plans,
//! and the client-side helpers that shape nicknames, rooms and SDP offers.

pub mod text;
pub mod decimal;
pub mod fields;
pub mod select;
pub mod op_timeout;
pub mod env;
pub mod uuid_text;
pub mod clock;
pub mod control_store;
pub mod connector;
pub mod services;
pub mod room_manager;
pub mod client;
