//! The shared storage layout: key names, stored records and the pure halves of the
//! storage operations that supervisor and services run against it.

pub mod keys;
pub mod models;
pub mod storage;
