//! What a device adapter is built from.

pub use crate::models::weight::WeightReading;
use crate::text_map::Record;
use crate::text_map::TextMap;
use vstd::prelude::*;

verus! {

/// A device with its dialect and its commands resolved.
#[derive(Debug)]
pub struct DeviceConfig {
    pub name: String,
    pub manufacturer: String,
    pub model: String,
    pub protocol: String,
    pub commands: TextMap<String>,
    pub enabled: bool,
}

/// The mathematical content of a [`DeviceConfig`].
pub struct DeviceConfigView {
    pub name: Seq<char>,
    pub manufacturer: Seq<char>,
    pub model: Seq<char>,
    pub protocol: Seq<char>,
    pub commands: Seq<(Seq<char>, Seq<char>)>,
    pub enabled: bool,
}

impl View for DeviceConfig {
    type V = DeviceConfigView;

    open spec fn view(&self) -> DeviceConfigView {
        DeviceConfigView {
            name: self.name@,
            manufacturer: self.manufacturer@,
            model: self.model@,
            protocol: self.protocol@,
            commands: self.commands@,
            enabled: self.enabled,
        }
    }
}

impl Record for DeviceConfig {
    fn copy(&self) -> (r: DeviceConfig) {
        DeviceConfig {
            name: self.name.clone(),
            manufacturer: self.manufacturer.clone(),
            model: self.model.clone(),
            protocol: self.protocol.clone(),
            commands: self.commands.copy(),
            enabled: self.enabled,
        }
    }
}

} // verus!
