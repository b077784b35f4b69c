//! The adapter of Rinstrum C320 indicators.

use crate::adapters::adapter::bridge_device_error;
use crate::adapters::adapter::bridge_reading;
use crate::adapters::adapter::unit_view;
use crate::adapters::adapter::AdapterStep;
use crate::adapters::adapter::AdapterStepView;
use crate::adapters::adapter::AdapterView;
use crate::adapters::adapter::LinkAdapter;
use crate::error::BridgeError;
use crate::error::BridgeErrorView;
use crate::host::commands::frame;
use crate::host::commands::frame_of;
use crate::host::commands::Event;
use crate::host::commands::EventView;
use crate::host::connection::ConnectStep;
use crate::host::connection::OpenOutcome;
use crate::host::protocol::Protocol;
use crate::host::protocol::ProtocolView;
use crate::host::protocol::TERMINATOR;
use crate::miernik::parsers::rincmd_reading;
use crate::miernik::parsers::rincmd_reading_at;
use crate::models::device::Connection;
use crate::models::weight::WeightReading;
use crate::text::lowercase_of;
use crate::text_map::lookup;
use crate::text_map::TextMap;
use crate::views::join;
use crate::views::result_view;
use vstd::prelude::*;

verus! {

/// An adapter that speaks the dialect of Rinstrum C320 indicators over TCP
/// or a serial line.
#[derive(Debug)]
pub struct RinstrumC320Adapter {
    pub link: LinkAdapter,
}

impl View for RinstrumC320Adapter {
    type V = AdapterView;

    open spec fn view(&self) -> AdapterView {
        self.link@
    }
}

/// The message of a command that the adapter does not know.
pub open spec fn unknown_command(command: Seq<char>) -> Seq<char> {
    "Unknown command: "@ + command
}

/// The start of a command of a Rinstrum adapter: the name is looked up in
/// lowercase; a name that is not known fails at once and changes nothing.
pub open spec fn rinstrum_execute(adapter: AdapterView, command: Seq<char>, timestamp: i64) -> (
    AdapterView,
    AdapterStepView,
) {
    match lookup(adapter.commands, lowercase_of(command)) {
        Some(raw) => adapter.begin(frame_of(raw), timestamp),
        None => (
            adapter,
            AdapterStepView::Finished(
                Err(BridgeErrorView::InvalidCommand(unknown_command(command))),
            ),
        ),
    }
}

impl RinstrumC320Adapter {
    /// An adapter for the device `device_id`. It never fails.
    pub fn new(device_id: String, connection: Connection, commands: TextMap<String>) -> (r: Result<
        Self,
        BridgeError,
    >)
        ensures
            r matches Ok(a) && a@ == AdapterView::made(
                device_id@,
                connection@,
                ProtocolView::Rincmd,
                commands@,
            ),
    {
        Ok(
            RinstrumC320Adapter {
                link: LinkAdapter::new(device_id, connection, Protocol::Rincmd, &commands),
            },
        )
    }

    /// What ends a command on the wire.
    pub fn get_command_terminator(&self) -> (t: &'static str)
        ensures
            t@ == TERMINATOR@,
    {
        TERMINATOR
    }

    /// Reads an answer as of the time `timestamp`.
    pub fn parse_rincmd_response_at(&self, response: &str, timestamp: i64) -> (r: Result<
        WeightReading,
        BridgeError,
    >)
        ensures
            result_view(r) == bridge_reading(rincmd_reading(response@, timestamp)),
    {
        match rincmd_reading_at(response, timestamp) {
            Ok(reading) => Ok(reading),
            Err(e) => Err(bridge_device_error(e)),
        }
    }

    /// Reads an answer; the reading carries the time at which it was read.
    pub fn parse_rincmd_response(&self, response: &str) -> (r: Result<WeightReading, BridgeError>)
        ensures
            exists|timestamp: i64|
                result_view(r) == bridge_reading(#[trigger] rincmd_reading(response@, timestamp)),
    {
        let timestamp = crate::clock::now_millis();
        self.parse_rincmd_response_at(response, timestamp)
    }

    /// What a request to connect asks for.
    pub fn connect(&self) -> (r: Result<ConnectStep, BridgeError>)
        ensures
            result_view(r) == self@.connect(),
    {
        self.link.connect()
    }

    /// Takes the outcome of an attempt to open the link.
    pub fn finish_connect(&mut self, outcome: OpenOutcome) -> (r: Result<(), BridgeError>)
        ensures
            final(self)@ == old(self)@.opened(outcome@),
            unit_view(r) == old(self)@.open_result(outcome@),
    {
        self.link.finish_connect(outcome)
    }

    /// Lets go of the link. It never fails.
    pub fn disconnect(&mut self) -> (r: Result<(), BridgeError>)
        ensures
            final(self)@ == old(self)@.disconnected(),
            r is Ok,
    {
        self.link.disconnect()
    }

    /// Whether the link is open and free.
    pub fn is_connected(&self) -> (b: bool)
        ensures
            b == self@.is_connected(),
    {
        self.link.is_connected()
    }

    /// Starts the command `command` as of the time `timestamp` and says
    /// what to do first.
    pub fn execute_command_at(&mut self, command: &str, timestamp: i64) -> (step: AdapterStep)
        ensures
            (final(self)@, step@) == rinstrum_execute(old(self)@, command@, timestamp),
    {
        let name = command.to_lowercase();
        let raw = match self.link.commands.get(name.as_str()) {
            Some(raw) => raw.clone(),
            None => {
                return AdapterStep::Finished(
                    Err(BridgeError::InvalidCommand(join("Unknown command: ", command))),
                );
            },
        };
        self.link.begin(frame(raw.as_str()), timestamp)
    }

    /// Takes what came of the last step, as of the time `timestamp`, and
    /// says what to do next.
    pub fn advance_at(&mut self, event: Event, timestamp: i64) -> (step: AdapterStep)
        ensures
            (final(self)@, step@) == old(self)@.advance(event@, timestamp),
    {
        self.link.advance(event, timestamp)
    }

    /// Starts the command `command` and says what to do first.
    pub fn execute_command(&mut self, command: &str) -> (step: AdapterStep)
        ensures
            exists|timestamp: i64|
                (final(self)@, step@) == #[trigger] rinstrum_execute(
                    old(self)@,
                    command@,
                    timestamp,
                ),
    {
        let timestamp = crate::clock::now_millis();
        let ghost before = self@;
        let step = self.execute_command_at(command, timestamp);
        assert((self@, step@) == rinstrum_execute(before, command@, timestamp));
        step
    }

    /// Takes what came of the last step and says what to do next.
    pub fn advance(&mut self, event: Event) -> (step: AdapterStep)
        ensures
            exists|timestamp: i64|
                (final(self)@, step@) == #[trigger] old(self)@.advance(event@, timestamp),
    {
        let timestamp = crate::clock::now_millis();
        let ghost before = self@;
        let ghost happened = event@;
        let step = self.advance_at(event, timestamp);
        assert((self@, step@) == before.advance(happened, timestamp));
        step
    }

    /// A copy of the adapter.
    pub fn copy(&self) -> (r: RinstrumC320Adapter)
        ensures
            r@ == self@,
    {
        RinstrumC320Adapter { link: self.link.copy() }
    }
}

impl crate::adapters::adapter::DeviceAdapter for RinstrumC320Adapter {
    open spec fn executed(adapter: AdapterView, command: Seq<char>, timestamp: i64) -> (
        AdapterView,
        AdapterStepView,
    ) {
        rinstrum_execute(adapter, command, timestamp)
    }

    fn connect(&self) -> (r: Result<ConnectStep, BridgeError>) {
        RinstrumC320Adapter::connect(self)
    }

    fn finish_connect(&mut self, outcome: OpenOutcome) -> (r: Result<(), BridgeError>) {
        RinstrumC320Adapter::finish_connect(self, outcome)
    }

    fn disconnect(&mut self) -> (r: Result<(), BridgeError>) {
        RinstrumC320Adapter::disconnect(self)
    }

    fn is_connected(&self) -> (b: bool) {
        RinstrumC320Adapter::is_connected(self)
    }

    fn execute_command(&mut self, command: &str) -> (step: AdapterStep) {
        let timestamp = crate::clock::now_millis();
        let ghost before = self@;
        let step = RinstrumC320Adapter::execute_command_at(self, command, timestamp);
        assert((self@, step@) == Self::executed(before, command@, timestamp));
        step
    }

    fn advance(&mut self, event: Event) -> (step: AdapterStep) {
        let timestamp = crate::clock::now_millis();
        let ghost before = self@;
        let ghost happened = event@;
        let step = RinstrumC320Adapter::advance_at(self, event, timestamp);
        assert((self@, step@) == before.advance(happened, timestamp));
        step
    }
}

} // verus!
