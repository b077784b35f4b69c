pub mod adapters;
pub mod clock;
pub mod decimal;
pub mod device_manager;
pub mod error;
pub mod host;
pub mod miernik;
pub mod migration;
pub mod models;
pub mod pattern;
pub mod probe;
pub mod text;
pub mod text_map;
pub mod views;
