//! The room manager: its records and storage computations, its request answers, and
//! the decisions of its health and scale-down loops.

pub mod storage;
pub mod service;
pub mod runtime;
pub mod health;
