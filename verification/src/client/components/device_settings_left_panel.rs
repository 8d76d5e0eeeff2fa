//! The device panel shown before joining.

pub mod data;
