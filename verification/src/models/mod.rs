//! Configuration and reading records.

pub mod device;
pub mod host;
pub mod legacy_device;
pub mod miernik;
pub mod weight;
