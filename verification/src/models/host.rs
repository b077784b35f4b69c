//! Hosts: the links through which devices are reached.

use crate::models::device::ConnectionConfig;
use crate::models::device::ConnectionConfigView;
use crate::models::device::DeviceConfig;
use crate::models::device::DeviceConfigView;
use crate::models::miernik::MiernikConfig;
use crate::models::miernik::MiernikConfigView;
use crate::text_map::Record;
use crate::text_map::TextMap;
use vstd::prelude::*;

verus! {

/// One link, over TCP or a serial line.
#[derive(Debug)]
pub struct HostConfig {
    pub name: String,
    pub connection: ConnectionConfig,
    pub timeout_ms: u32,
    pub enabled: bool,
}

/// The mathematical content of a [`HostConfig`].
pub struct HostConfigView {
    pub name: Seq<char>,
    pub connection: ConnectionConfigView,
    pub timeout_ms: u32,
    pub enabled: bool,
}

impl View for HostConfig {
    type V = HostConfigView;

    open spec fn view(&self) -> HostConfigView {
        HostConfigView {
            name: self.name@,
            connection: self.connection@,
            timeout_ms: self.timeout_ms,
            enabled: self.enabled,
        }
    }
}

impl Record for HostConfig {
    fn copy(&self) -> (r: HostConfig) {
        HostConfig {
            name: self.name.clone(),
            connection: self.connection.copy(),
            timeout_ms: self.timeout_ms,
            enabled: self.enabled,
        }
    }
}

/// A host is enabled unless its settings say otherwise.
pub fn default_enabled() -> (enabled: bool)
    ensures
        enabled,
{
    true
}

/// All that is configured: hosts, indicators and devices, each by its
/// identity.
#[derive(Debug)]
pub struct AppConfig {
    pub hosts: TextMap<HostConfig>,
    pub mierniki: TextMap<MiernikConfig>,
    pub devices: TextMap<DeviceConfig>,
}

/// The mathematical content of an [`AppConfig`].
pub struct AppConfigView {
    pub hosts: Seq<(Seq<char>, HostConfigView)>,
    pub mierniki: Seq<(Seq<char>, MiernikConfigView)>,
    pub devices: Seq<(Seq<char>, DeviceConfigView)>,
}

impl View for AppConfig {
    type V = AppConfigView;

    open spec fn view(&self) -> AppConfigView {
        AppConfigView { hosts: self.hosts@, mierniki: self.mierniki@, devices: self.devices@ }
    }
}

impl Record for AppConfig {
    fn copy(&self) -> (r: AppConfig) {
        AppConfig {
            hosts: self.hosts.copy(),
            mierniki: self.mierniki.copy(),
            devices: self.devices.copy(),
        }
    }
}

impl AppConfig {
    /// The configuration without hosts, indicators and devices.
    pub fn empty() -> (config: AppConfig)
        ensures
            config@.hosts.len() == 0,
            config@.mierniki.len() == 0,
            config@.devices.len() == 0,
    {
        AppConfig { hosts: TextMap::new(), mierniki: TextMap::new(), devices: TextMap::new() }
    }
}

/// A request to store the settings of one host.
#[derive(Debug)]
pub struct SaveHostRequest {
    pub host_id: String,
    pub config: HostConfig,
}

} // verus!
