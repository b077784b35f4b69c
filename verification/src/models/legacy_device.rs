//! The configuration as it was stored before hosts and indicators were
//! split from devices.

use crate::models::device::ConnectionConfig;
use crate::models::device::ConnectionConfigView;
use crate::text_map::Record;
use crate::text_map::TextMap;
use vstd::prelude::*;

verus! {

/// A device with its link, its dialect and its commands in one record.
#[derive(Debug)]
pub struct LegacyDeviceConfig {
    pub name: String,
    pub manufacturer: String,
    pub model: String,
    pub protocol: String,
    pub connection: ConnectionConfig,
    pub timeout_ms: u32,
    pub commands: TextMap<String>,
    pub enabled: bool,
}

/// The mathematical content of a [`LegacyDeviceConfig`].
pub struct LegacyDeviceConfigView {
    pub name: Seq<char>,
    pub manufacturer: Seq<char>,
    pub model: Seq<char>,
    pub protocol: Seq<char>,
    pub connection: ConnectionConfigView,
    pub timeout_ms: u32,
    pub commands: Seq<(Seq<char>, Seq<char>)>,
    pub enabled: bool,
}

impl View for LegacyDeviceConfig {
    type V = LegacyDeviceConfigView;

    open spec fn view(&self) -> LegacyDeviceConfigView {
        LegacyDeviceConfigView {
            name: self.name@,
            manufacturer: self.manufacturer@,
            model: self.model@,
            protocol: self.protocol@,
            connection: self.connection@,
            timeout_ms: self.timeout_ms,
            commands: self.commands@,
            enabled: self.enabled,
        }
    }
}

impl Record for LegacyDeviceConfig {
    fn copy(&self) -> (r: LegacyDeviceConfig) {
        LegacyDeviceConfig {
            name: self.name.clone(),
            manufacturer: self.manufacturer.clone(),
            model: self.model.clone(),
            protocol: self.protocol.clone(),
            connection: self.connection.copy(),
            timeout_ms: self.timeout_ms,
            commands: self.commands.copy(),
            enabled: self.enabled,
        }
    }
}

/// The time, in milliseconds, that a link waits where its settings name
/// none.
pub fn default_timeout_ms() -> (timeout_ms: u32)
    ensures
        timeout_ms == 1000,
{
    1000
}

/// A device is enabled unless its settings say otherwise.
pub fn default_enabled() -> (enabled: bool)
    ensures
        enabled,
{
    true
}

/// All that was configured in the old layout: devices by their identity.
#[derive(Debug)]
pub struct LegacyAppConfig {
    pub devices: TextMap<LegacyDeviceConfig>,
}

} // verus!
