//! The supervisor: its settings and the plans of its probes and janitor.

pub mod config;
pub mod probes;
pub mod janitor;
