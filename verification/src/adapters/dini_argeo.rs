//! The adapter of Dini Argeo indicators that speak ASCII.

use crate::adapters::adapter::bridge_device_error;
use crate::adapters::adapter::device_error;
use crate::adapters::adapter::unit_view;
use crate::adapters::adapter::AdapterStep;
use crate::adapters::adapter::AdapterStepView;
use crate::adapters::adapter::AdapterView;
use crate::adapters::adapter::LinkAdapter;
use crate::decimal::Decimal;
use crate::decimal::DecimalView;
use crate::error::BridgeError;
use crate::error::BridgeErrorView;
use crate::host::commands::Event;
use crate::host::commands::EventView;
use crate::host::commands::LINE_FEED;
use crate::host::connection::ConnectStep;
use crate::host::connection::OpenOutcome;
use crate::host::protocol::Protocol;
use crate::host::protocol::ProtocolView;
use crate::host::protocol::TERMINATOR;
use crate::miernik::parsers::dini_weight;
use crate::miernik::parsers::parse_dini_weight;
use crate::models::device::Connection;
use crate::models::weight::WeightReading;
use crate::models::weight::WeightReadingView;
use crate::text::lowercase_of;
use crate::text::trimmed;
use crate::text_map::lookup;
use crate::text_map::TextMap;
use crate::views::join;
use crate::views::result_view;
use vstd::prelude::*;

verus! {

/// The byte of a carriage return.
pub const CARRIAGE_RETURN: u8 = 13;

/// An adapter that speaks the ASCII dialect of Dini Argeo indicators over
/// TCP or a serial line.
#[derive(Debug)]
pub struct DiniArgeoAsciiAdapter {
    pub link: LinkAdapter,
}

impl View for DiniArgeoAsciiAdapter {
    type V = AdapterView;

    open spec fn view(&self) -> AdapterView {
        self.link@
    }
}

/// The bytes of a command on the wire: the command, trimmed, ends with
/// carriage return and line feed. A command that ends with a line feed
/// already is left as it is, one that ends with a carriage return gets the
/// line feed only, and an empty command stays empty.
pub open spec fn dini_frame(raw: Seq<char>) -> Seq<u8> {
    let bytes = vstd::utf8::encode_utf8(trimmed(raw));
    if bytes.len() == 0 {
        bytes
    } else if bytes.last() == LINE_FEED {
        bytes
    } else if bytes.last() == CARRIAGE_RETURN {
        bytes.push(LINE_FEED)
    } else {
        bytes.push(CARRIAGE_RETURN).push(LINE_FEED)
    }
}

/// The message of a command that the adapter does not know.
pub open spec fn unknown_ascii_command(command: Seq<char>) -> Seq<char> {
    "Unknown ASCII command: "@ + command
}

/// The message of a command without content.
pub open spec fn empty_command() -> Seq<char> {
    "ASCII command cannot be empty"@
}

/// The start of a command of a Dini Argeo adapter: the name is looked up in
/// lowercase. A name that is not known, and a command without content,
/// fail at once and change nothing.
pub open spec fn dini_execute(adapter: AdapterView, command: Seq<char>, timestamp: i64) -> (
    AdapterView,
    AdapterStepView,
) {
    match lookup(adapter.commands, lowercase_of(command)) {
        Some(raw) => if dini_frame(raw).len() == 0 {
            (
                adapter,
                AdapterStepView::Finished(Err(BridgeErrorView::InvalidCommand(empty_command()))),
            )
        } else {
            adapter.begin(dini_frame(raw), timestamp)
        },
        None => (
            adapter,
            AdapterStepView::Finished(
                Err(BridgeErrorView::InvalidCommand(unknown_ascii_command(command))),
            ),
        ),
    }
}

/// What reading the weight of an answer returned, as a result of the
/// bridge, with each part replaced by its view.
pub open spec fn bridge_weight(r: Result<(Decimal, String, bool), BridgeError>) -> Result<
    (DecimalView, Seq<char>, bool),
    BridgeErrorView,
> {
    match r {
        Ok(p) => Ok((p.0@, p.1@, p.2)),
        Err(e) => Err(e@),
    }
}

/// The bytes of a command on the wire.
pub fn format_command_bytes(raw: &str) -> (bytes: Vec<u8>)
    ensures
        bytes@ == dini_frame(raw@),
{
    let chars = crate::text::trimmed_chars(raw);
    let text = crate::text::string_of(&chars);
    let mut bytes = text.as_str().as_bytes_vec();
    if bytes.len() == 0 {
        return bytes;
    }
    let last = bytes[bytes.len() - 1];
    if last == LINE_FEED {
        return bytes;
    }
    if last == CARRIAGE_RETURN {
        bytes.push(LINE_FEED);
    } else {
        bytes.push(CARRIAGE_RETURN);
        bytes.push(LINE_FEED);
    }
    bytes
}

impl DiniArgeoAsciiAdapter {
    /// An adapter for the device `device_id`. It never fails.
    pub fn new(device_id: String, connection: Connection, commands: TextMap<String>) -> (r: Result<
        Self,
        BridgeError,
    >)
        ensures
            r matches Ok(a) && a@ == AdapterView::made(
                device_id@,
                connection@,
                ProtocolView::DiniAscii,
                commands@,
            ),
    {
        Ok(
            DiniArgeoAsciiAdapter {
                link: LinkAdapter::new(device_id, connection, Protocol::DiniAscii, &commands),
            },
        )
    }

    /// What ends a command on the wire.
    pub fn get_command_terminator(&self) -> (t: &'static str)
        ensures
            t@ == TERMINATOR@,
    {
        TERMINATOR
    }

    /// The bytes of a command on the wire.
    pub fn format_command(&self, raw: &str) -> (bytes: Vec<u8>)
        ensures
            bytes@ == dini_frame(raw@),
    {
        format_command_bytes(raw)
    }

    /// Reads weight, unit and stability from an answer.
    pub fn parse_weight_from_response(&self, response: &str) -> (r: Result<
        (Decimal, String, bool),
        BridgeError,
    >)
        ensures
            bridge_weight(r) == match dini_weight(response@) {
                Ok(weight) => Ok::<(DecimalView, Seq<char>, bool), BridgeErrorView>(weight),
                Err(e) => Err(device_error(e)),
            },
            r matches Ok(p) ==> p.0.wf(),
    {
        match parse_dini_weight(response) {
            Ok(weight) => Ok(weight),
            Err(e) => Err(bridge_device_error(e)),
        }
    }

    /// The reading of a weight as of the time `timestamp`: gross and net
    /// weight are both the one weight.
    pub fn to_weight_reading_at(
        &self,
        value: Decimal,
        unit: String,
        is_stable: bool,
        timestamp: i64,
    ) -> (r: WeightReading)
        ensures
            r@ == WeightReadingView::plain(value@, value@, unit@, is_stable, timestamp),
    {
        let net = value.copy();
        WeightReading::plain(value, net, unit, is_stable, timestamp)
    }

    /// The reading of a weight; it carries the time at which it was made.
    pub fn to_weight_reading(&self, value: Decimal, unit: String, is_stable: bool) -> (r:
        WeightReading)
        ensures
            r@ == WeightReadingView::plain(value@, value@, unit@, is_stable, r.timestamp),
    {
        let timestamp = crate::clock::now_millis();
        self.to_weight_reading_at(value, unit, is_stable, timestamp)
    }

    /// What a request to connect asks for.
    pub fn connect(&self) -> (r: Result<ConnectStep, BridgeError>)
        ensures
            result_view(r) == self@.connect(),
    {
        self.link.connect()
    }

    /// Takes the outcome of an attempt to open the link.
    pub fn finish_connect(&mut self, outcome: OpenOutcome) -> (r: Result<(), BridgeError>)
        ensures
            final(self)@ == old(self)@.opened(outcome@),
            unit_view(r) == old(self)@.open_result(outcome@),
    {
        self.link.finish_connect(outcome)
    }

    /// Lets go of the link. It never fails.
    pub fn disconnect(&mut self) -> (r: Result<(), BridgeError>)
        ensures
            final(self)@ == old(self)@.disconnected(),
            r is Ok,
    {
        self.link.disconnect()
    }

    /// Whether the link is open and free.
    pub fn is_connected(&self) -> (b: bool)
        ensures
            b == self@.is_connected(),
    {
        self.link.is_connected()
    }

    /// Starts the command `command` as of the time `timestamp` and says
    /// what to do first.
    pub fn execute_command_at(&mut self, command: &str, timestamp: i64) -> (step: AdapterStep)
        ensures
            (final(self)@, step@) == dini_execute(old(self)@, command@, timestamp),
    {
        let name = command.to_lowercase();
        let raw = match self.link.commands.get(name.as_str()) {
            Some(raw) => raw.clone(),
            None => {
                return AdapterStep::Finished(
                    Err(BridgeError::InvalidCommand(join("Unknown ASCII command: ", command))),
                );
            },
        };
        let frame = format_command_bytes(raw.as_str());
        if frame.len() == 0 {
            return AdapterStep::Finished(
                Err(BridgeError::InvalidCommand("ASCII command cannot be empty".to_string())),
            );
        }
        self.link.begin(frame, timestamp)
    }

    /// Takes what came of the last step, as of the time `timestamp`, and
    /// says what to do next.
    pub fn advance_at(&mut self, event: Event, timestamp: i64) -> (step: AdapterStep)
        ensures
            (final(self)@, step@) == old(self)@.advance(event@, timestamp),
    {
        self.link.advance(event, timestamp)
    }

    /// Starts the command `command` and says what to do first.
    pub fn execute_command(&mut self, command: &str) -> (step: AdapterStep)
        ensures
            exists|timestamp: i64|
                (final(self)@, step@) == #[trigger] dini_execute(old(self)@, command@, timestamp),
    {
        let timestamp = crate::clock::now_millis();
        let ghost before = self@;
        let step = self.execute_command_at(command, timestamp);
        assert((self@, step@) == dini_execute(before, command@, timestamp));
        step
    }

    /// Takes what came of the last step and says what to do next.
    pub fn advance(&mut self, event: Event) -> (step: AdapterStep)
        ensures
            exists|timestamp: i64|
                (final(self)@, step@) == #[trigger] old(self)@.advance(event@, timestamp),
    {
        let timestamp = crate::clock::now_millis();
        let ghost before = self@;
        let ghost happened = event@;
        let step = self.advance_at(event, timestamp);
        assert((self@, step@) == before.advance(happened, timestamp));
        step
    }

    /// A copy of the adapter.
    pub fn copy(&self) -> (r: DiniArgeoAsciiAdapter)
        ensures
            r@ == self@,
    {
        DiniArgeoAsciiAdapter { link: self.link.copy() }
    }
}

impl crate::adapters::adapter::DeviceAdapter for DiniArgeoAsciiAdapter {
    open spec fn executed(adapter: AdapterView, command: Seq<char>, timestamp: i64) -> (
        AdapterView,
        AdapterStepView,
    ) {
        dini_execute(adapter, command, timestamp)
    }

    fn connect(&self) -> (r: Result<ConnectStep, BridgeError>) {
        DiniArgeoAsciiAdapter::connect(self)
    }

    fn finish_connect(&mut self, outcome: OpenOutcome) -> (r: Result<(), BridgeError>) {
        DiniArgeoAsciiAdapter::finish_connect(self, outcome)
    }

    fn disconnect(&mut self) -> (r: Result<(), BridgeError>) {
        DiniArgeoAsciiAdapter::disconnect(self)
    }

    fn is_connected(&self) -> (b: bool) {
        DiniArgeoAsciiAdapter::is_connected(self)
    }

    fn execute_command(&mut self, command: &str) -> (step: AdapterStep) {
        let timestamp = crate::clock::now_millis();
        let ghost before = self@;
        let step = DiniArgeoAsciiAdapter::execute_command_at(self, command, timestamp);
        assert((self@, step@) == Self::executed(before, command@, timestamp));
        step
    }

    fn advance(&mut self, event: Event) -> (step: AdapterStep) {
        let timestamp = crate::clock::now_millis();
        let ghost before = self@;
        let ghost happened = event@;
        let step = DiniArgeoAsciiAdapter::advance_at(self, event, timestamp);
        assert((self@, step@) == before.advance(happened, timestamp));
        step
    }
}

} // verus!
