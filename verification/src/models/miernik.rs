//! Indicators: the dialect a scale speaks and the commands it knows.

use crate::text_map::Record;
use crate::text_map::TextMap;
use vstd::prelude::*;

verus! {

/// One kind of indicator.
#[derive(Debug)]
pub struct MiernikConfig {
    pub name: String,
    pub protocol: String,
    pub manufacturer: String,
    pub model: String,
    pub commands: TextMap<String>,
    pub enabled: bool,
}

/// The mathematical content of a [`MiernikConfig`].
pub struct MiernikConfigView {
    pub name: Seq<char>,
    pub protocol: Seq<char>,
    pub manufacturer: Seq<char>,
    pub model: Seq<char>,
    pub commands: Seq<(Seq<char>, Seq<char>)>,
    pub enabled: bool,
}

impl View for MiernikConfig {
    type V = MiernikConfigView;

    open spec fn view(&self) -> MiernikConfigView {
        MiernikConfigView {
            name: self.name@,
            protocol: self.protocol@,
            manufacturer: self.manufacturer@,
            model: self.model@,
            commands: self.commands@,
            enabled: self.enabled,
        }
    }
}

impl Record for MiernikConfig {
    fn copy(&self) -> (r: MiernikConfig) {
        MiernikConfig {
            name: self.name.clone(),
            protocol: self.protocol.clone(),
            manufacturer: self.manufacturer.clone(),
            model: self.model.clone(),
            commands: self.commands.copy(),
            enabled: self.enabled,
        }
    }
}

/// An indicator is enabled unless its settings say otherwise.
pub fn default_enabled() -> (enabled: bool)
    ensures
        enabled,
{
    true
}

/// A request to store the settings of one indicator.
#[derive(Debug)]
pub struct SaveMiernikRequest {
    pub miernik_id: String,
    pub config: MiernikConfig,
}

} // verus!
