//! The adapter of a device, whichever dialect it speaks.

use crate::adapters::adapter::unit_view;
use crate::adapters::adapter::AdapterStep;
use crate::adapters::adapter::AdapterStepView;
use crate::adapters::adapter::AdapterView;
use crate::adapters::dini_argeo::dini_execute;
use crate::adapters::dini_argeo::DiniArgeoAsciiAdapter;
use crate::adapters::rinstrum::rinstrum_execute;
use crate::adapters::rinstrum::RinstrumC320Adapter;
use crate::error::BridgeError;
use crate::error::BridgeErrorView;
use crate::host::commands::Event;
use crate::host::commands::EventView;
use crate::host::connection::ConnectStep;
use crate::host::connection::OpenOutcome;
use crate::host::protocol::ProtocolView;
use crate::models::device::Connection;
use crate::text::lowercase_of;
use crate::text::spells;
use crate::text_map::TextMap;
use crate::views::join;
use crate::views::result_view;
use vstd::prelude::*;

verus! {

/// The adapter of a device: one of the two dialects.
#[derive(Debug)]
pub enum DeviceAdapterEnum {
    DiniArgeo(DiniArgeoAsciiAdapter),
    Rinstrum(RinstrumC320Adapter),
}

/// The two dialects.
#[derive(Debug, Clone, Copy, PartialEq, Eq, Structural)]
pub enum AdapterKind {
    DiniArgeo,
    Rinstrum,
}

/// The name of the Dini Argeo dialect.
pub const DINI_ARGEO_TYPE: &'static str = "dini_argeo";

/// The name of the Rinstrum dialect.
pub const RINSTRUM_TYPE: &'static str = "rinstrum";

/// The name of Dini Argeo devices.
pub const DINI_ARGEO_NAME: &'static str = "Dini Argeo ASCII";

/// The name of Rinstrum devices.
pub const RINSTRUM_NAME: &'static str = "Rinstrum C320";

/// The dialect that a type of adapter, written in lowercase, names.
pub open spec fn kind_of_type(lower: Seq<char>) -> Option<AdapterKind> {
    if lower == "dini_argeo"@ || lower == "diniargeo"@ || lower == "ascii"@ || lower == "dfw"@
        || lower == "dinia"@ {
        Some(AdapterKind::DiniArgeo)
    } else if lower == "rinstrum"@ || lower == "rinstrum_c320"@ || lower == "rincmd"@ {
        Some(AdapterKind::Rinstrum)
    } else {
        None
    }
}

/// The message of a type of adapter that names no dialect.
pub open spec fn unknown_adapter_type(adapter_type: Seq<char>) -> Seq<char> {
    "Unknown adapter type: "@ + adapter_type
}

/// The dialect that a type of adapter, written in lowercase, names.
pub fn kind_from_type(lower: &str) -> (r: Option<AdapterKind>)
    ensures
        r == kind_of_type(lower@),
{
    if spells(lower, "dini_argeo") || spells(lower, "diniargeo") || spells(lower, "ascii")
        || spells(lower, "dfw") || spells(lower, "dinia") {
        Some(AdapterKind::DiniArgeo)
    } else if spells(lower, "rinstrum") || spells(lower, "rinstrum_c320") || spells(
        lower,
        "rincmd",
    ) {
        Some(AdapterKind::Rinstrum)
    } else {
        None
    }
}

impl DeviceAdapterEnum {
    /// The dialect of the adapter.
    pub open spec fn kind(self) -> AdapterKind {
        match self {
            DeviceAdapterEnum::DiniArgeo(_) => AdapterKind::DiniArgeo,
            DeviceAdapterEnum::Rinstrum(_) => AdapterKind::Rinstrum,
        }
    }

    /// The dialect of the adapter as the executor knows it.
    pub open spec fn protocol_of(kind: AdapterKind) -> ProtocolView {
        match kind {
            AdapterKind::DiniArgeo => ProtocolView::DiniAscii,
            AdapterKind::Rinstrum => ProtocolView::Rincmd,
        }
    }

    /// The start of a command in the dialect of the adapter.
    pub open spec fn executed(
        kind: AdapterKind,
        adapter: AdapterView,
        command: Seq<char>,
        timestamp: i64,
    ) -> (AdapterView, AdapterStepView) {
        match kind {
            AdapterKind::DiniArgeo => dini_execute(adapter, command, timestamp),
            AdapterKind::Rinstrum => rinstrum_execute(adapter, command, timestamp),
        }
    }
}

impl View for DeviceAdapterEnum {
    type V = AdapterView;

    open spec fn view(&self) -> AdapterView {
        match self {
            DeviceAdapterEnum::DiniArgeo(adapter) => adapter@,
            DeviceAdapterEnum::Rinstrum(adapter) => adapter@,
        }
    }
}

impl DeviceAdapterEnum {
    /// An adapter of the Dini Argeo dialect. It never fails.
    pub fn new_dini_argeo(device_id: String, connection: Connection, commands: TextMap<String>) -> (r:
        Result<Self, BridgeError>)
        ensures
            r matches Ok(a) && a.kind() == AdapterKind::DiniArgeo && a@ == AdapterView::made(
                device_id@,
                connection@,
                ProtocolView::DiniAscii,
                commands@,
            ),
    {
        match DiniArgeoAsciiAdapter::new(device_id, connection, commands) {
            Ok(adapter) => Ok(DeviceAdapterEnum::DiniArgeo(adapter)),
            Err(e) => Err(e),
        }
    }

    /// An adapter of the Rinstrum dialect. It never fails.
    pub fn new_rinstrum(device_id: String, connection: Connection, commands: TextMap<String>) -> (r:
        Result<Self, BridgeError>)
        ensures
            r matches Ok(a) && a.kind() == AdapterKind::Rinstrum && a@ == AdapterView::made(
                device_id@,
                connection@,
                ProtocolView::Rincmd,
                commands@,
            ),
    {
        match RinstrumC320Adapter::new(device_id, connection, commands) {
            Ok(adapter) => Ok(DeviceAdapterEnum::Rinstrum(adapter)),
            Err(e) => Err(e),
        }
    }

    /// The adapter of the dialect that `lower`, the type of adapter in
    /// lowercase, names; `adapter_type` is the type as it was written.
    pub fn of_type(
        lower: &str,
        adapter_type: &str,
        device_id: String,
        connection: Connection,
        commands: TextMap<String>,
    ) -> (r: Result<Self, BridgeError>)
        ensures
            match kind_of_type(lower@) {
                Some(kind) => r matches Ok(a) && a.kind() == kind && a@ == AdapterView::made(
                    device_id@,
                    connection@,
                    Self::protocol_of(kind),
                    commands@,
                ),
                None => r matches Err(e) && e@ == BridgeErrorView::ConfigurationError(
                    unknown_adapter_type(adapter_type@),
                ),
            },
    {
        match kind_from_type(lower) {
            Some(AdapterKind::DiniArgeo) => Self::new_dini_argeo(device_id, connection, commands),
            Some(AdapterKind::Rinstrum) => Self::new_rinstrum(device_id, connection, commands),
            None => Err(
                BridgeError::ConfigurationError(join("Unknown adapter type: ", adapter_type)),
            ),
        }
    }

    /// The adapter of the dialect that `adapter_type` names, whatever the
    /// case of its letters. A type that names no dialect is a configuration
    /// error.
    pub fn from_config(
        adapter_type: &str,
        device_id: String,
        connection: Connection,
        commands: TextMap<String>,
    ) -> (r: Result<Self, BridgeError>)
        ensures
            match kind_of_type(lowercase_of(adapter_type@)) {
                Some(kind) => r matches Ok(a) && a.kind() == kind && a@ == AdapterView::made(
                    device_id@,
                    connection@,
                    Self::protocol_of(kind),
                    commands@,
                ),
                None => r matches Err(e) && e@ == BridgeErrorView::ConfigurationError(
                    unknown_adapter_type(adapter_type@),
                ),
            },
    {
        let lower = adapter_type.to_lowercase();
        Self::of_type(lower.as_str(), adapter_type, device_id, connection, commands)
    }

    /// What a request to connect asks for.
    pub fn connect(&self) -> (r: Result<ConnectStep, BridgeError>)
        ensures
            result_view(r) == self@.connect(),
    {
        match self {
            DeviceAdapterEnum::DiniArgeo(adapter) => adapter.connect(),
            DeviceAdapterEnum::Rinstrum(adapter) => adapter.connect(),
        }
    }

    /// Takes the outcome of an attempt to open the link.
    pub fn finish_connect(&mut self, outcome: OpenOutcome) -> (r: Result<(), BridgeError>)
        ensures
            final(self)@ == old(self)@.opened(outcome@),
            final(self).kind() == old(self).kind(),
            unit_view(r) == old(self)@.open_result(outcome@),
    {
        match self {
            DeviceAdapterEnum::DiniArgeo(adapter) => adapter.finish_connect(outcome),
            DeviceAdapterEnum::Rinstrum(adapter) => adapter.finish_connect(outcome),
        }
    }

    /// Lets go of the link. It never fails.
    pub fn disconnect(&mut self) -> (r: Result<(), BridgeError>)
        ensures
            final(self)@ == old(self)@.disconnected(),
            final(self).kind() == old(self).kind(),
            r is Ok,
    {
        match self {
            DeviceAdapterEnum::DiniArgeo(adapter) => adapter.disconnect(),
            DeviceAdapterEnum::Rinstrum(adapter) => adapter.disconnect(),
        }
    }

    /// Whether the link is open and free.
    pub fn is_connected(&self) -> (b: bool)
        ensures
            b == self@.is_connected(),
    {
        match self {
            DeviceAdapterEnum::DiniArgeo(adapter) => adapter.is_connected(),
            DeviceAdapterEnum::Rinstrum(adapter) => adapter.is_connected(),
        }
    }

    /// Starts the command `command` as of the time `timestamp` and says
    /// what to do first.
    pub fn execute_command_at(&mut self, command: &str, timestamp: i64) -> (step: AdapterStep)
        ensures
            (final(self)@, step@) == Self::executed(
                old(self).kind(),
                old(self)@,
                command@,
                timestamp,
            ),
            final(self).kind() == old(self).kind(),
    {
        match self {
            DeviceAdapterEnum::DiniArgeo(adapter) => adapter.execute_command_at(command, timestamp),
            DeviceAdapterEnum::Rinstrum(adapter) => adapter.execute_command_at(command, timestamp),
        }
    }

    /// Takes what came of the last step, as of the time `timestamp`, and
    /// says what to do next.
    pub fn advance_at(&mut self, event: Event, timestamp: i64) -> (step: AdapterStep)
        ensures
            (final(self)@, step@) == old(self)@.advance(event@, timestamp),
            final(self).kind() == old(self).kind(),
    {
        match self {
            DeviceAdapterEnum::DiniArgeo(adapter) => adapter.advance_at(event, timestamp),
            DeviceAdapterEnum::Rinstrum(adapter) => adapter.advance_at(event, timestamp),
        }
    }

    /// Starts the command `command` and says what to do first.
    pub fn execute_command(&mut self, command: &str) -> (step: AdapterStep)
        ensures
            exists|timestamp: i64|
                (final(self)@, step@) == #[trigger] Self::executed(
                    old(self).kind(),
                    old(self)@,
                    command@,
                    timestamp,
                ),
    {
        let timestamp = crate::clock::now_millis();
        let ghost before = self@;
        let ghost kind = self.kind();
        let step = self.execute_command_at(command, timestamp);
        assert((self@, step@) == Self::executed(kind, before, command@, timestamp));
        step
    }

    /// Takes what came of the last step and says what to do next.
    pub fn advance(&mut self, event: Event) -> (step: AdapterStep)
        ensures
            exists|timestamp: i64|
                (final(self)@, step@) == #[trigger] old(self)@.advance(event@, timestamp),
    {
        let timestamp = crate::clock::now_millis();
        let ghost before = self@;
        let ghost happened = event@;
        let step = self.advance_at(event, timestamp);
        assert((self@, step@) == before.advance(happened, timestamp));
        step
    }

    /// The type of the adapter.
    pub fn adapter_type(&self) -> (t: &'static str)
        ensures
            t@ == match self.kind() {
                AdapterKind::DiniArgeo => DINI_ARGEO_TYPE@,
                AdapterKind::Rinstrum => RINSTRUM_TYPE@,
            },
    {
        match self {
            DeviceAdapterEnum::DiniArgeo(_) => DINI_ARGEO_TYPE,
            DeviceAdapterEnum::Rinstrum(_) => RINSTRUM_TYPE,
        }
    }

    /// The name of the kind of device.
    pub fn device_name(&self) -> (name: String)
        ensures
            name@ == match self.kind() {
                AdapterKind::DiniArgeo => DINI_ARGEO_NAME@,
                AdapterKind::Rinstrum => RINSTRUM_NAME@,
            },
    {
        match self {
            DeviceAdapterEnum::DiniArgeo(_) => DINI_ARGEO_NAME.to_string(),
            DeviceAdapterEnum::Rinstrum(_) => RINSTRUM_NAME.to_string(),
        }
    }

    /// A copy of the adapter.
    pub fn clone(&self) -> (r: DeviceAdapterEnum)
        ensures
            r@ == self@,
            r.kind() == self.kind(),
    {
        match self {
            DeviceAdapterEnum::DiniArgeo(adapter) => DeviceAdapterEnum::DiniArgeo(adapter.copy()),
            DeviceAdapterEnum::Rinstrum(adapter) => DeviceAdapterEnum::Rinstrum(adapter.copy()),
        }
    }
}

} // verus!
