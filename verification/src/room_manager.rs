//! The first room manager: its settings, its records and static SFU inventory, and what
//! its storage operations compute.

pub mod config;
pub mod models;
pub mod storage;
pub mod util;
