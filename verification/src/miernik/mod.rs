//! Device definitions: what a scale understands and how its answers read.

pub mod device;
pub mod devices;
pub mod error;
pub mod models;
pub mod parsers;
