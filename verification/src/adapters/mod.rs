//! Adapters that keep one link to one device and speak its dialect.

pub mod adapter;
pub mod adapter_enum;
pub mod dini_argeo;
pub mod rinstrum;
