//! Links to devices: what a link is, how a command travels over it, and
//! what can go wrong.

pub mod commands;
pub mod connection;
pub mod error;
pub mod protocol;
