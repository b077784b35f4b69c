//! What the adapters of the two dialects share: a link, the commands of the
//! device, and the steps of a command.

use crate::decimal::decimal_string;
use crate::decimal::decimal_text;
use crate::error::BridgeError;
use crate::error::BridgeErrorView;
use crate::host::commands::CommandExecutor;
use crate::host::commands::Event;
use crate::host::commands::EventView;
use crate::host::commands::ExecutorView;
use crate::host::commands::PhaseView;
use crate::host::commands::Step;
use crate::host::commands::StepView;
use crate::host::connection::valid_data_bits;
use crate::host::connection::ConnectStep;
use crate::host::connection::ConnectStepView;
use crate::host::connection::ConnectionType;
use crate::host::connection::ConnectionTypeView;
use crate::host::connection::LinkState;
use crate::host::connection::OpenOutcome;
use crate::host::connection::OpenOutcomeView;
use crate::host::connection::OpenRequest;
use crate::host::connection::OpenRequestView;
use crate::host::error::HostError;
use crate::host::error::HostErrorView;
use crate::host::protocol::Protocol;
use crate::host::protocol::ProtocolView;
use crate::miernik::device::read_response;
use crate::miernik::device::reading_of;
use crate::miernik::devices::lowercase_keys;
use crate::miernik::devices::normalized_commands;
use crate::miernik::error::MiernikError;
use crate::miernik::error::MiernikErrorView;
use crate::models::device::Connection;
use crate::models::device::ConnectionView;
use crate::models::weight::WeightReading;
use crate::models::weight::WeightReadingView;
use crate::text_map::Record;
use crate::text_map::TextMap;
use crate::views::join3;
use crate::views::result_view;
use vstd::prelude::*;

verus! {

/// What the holder of the socket or port does next for an adapter.
#[derive(Debug)]
pub enum AdapterStep {
    /// Drop any handle held for this link, open the link anew and report
    /// how it went.
    Open(OpenRequest),
    /// Write all the bytes, flush, and report how it went.
    Write { bytes: Vec<u8>, timeout_ms: u32 },
    /// Read once and report what came.
    Read { timeout_ms: u32 },
    /// The command is done: the reading, or why there is none.
    Finished(Result<WeightReading, BridgeError>),
}

/// The mathematical content of an [`AdapterStep`].
pub enum AdapterStepView {
    Open(OpenRequestView),
    Write { bytes: Seq<u8>, timeout_ms: u32 },
    Read { timeout_ms: u32 },
    Finished(Result<WeightReadingView, BridgeErrorView>),
}

impl View for AdapterStep {
    type V = AdapterStepView;

    open spec fn view(&self) -> AdapterStepView {
        match self {
            AdapterStep::Open(request) => AdapterStepView::Open(request@),
            AdapterStep::Write { bytes, timeout_ms } => AdapterStepView::Write {
                bytes: bytes@,
                timeout_ms: *timeout_ms,
            },
            AdapterStep::Read { timeout_ms } => AdapterStepView::Read { timeout_ms: *timeout_ms },
            AdapterStep::Finished(result) => AdapterStepView::Finished(result_view(*result)),
        }
    }
}

/// The error of the bridge for an error of the link: each kind stays what
/// it is, and an error of the serial port is a connection error.
pub open spec fn link_error(e: HostErrorView) -> BridgeErrorView {
    match e {
        HostErrorView::ConnectionError(m) => BridgeErrorView::ConnectionError(m),
        HostErrorView::IoError(m) => BridgeErrorView::IoError(m),
        HostErrorView::Timeout(m) => BridgeErrorView::Timeout(m),
        HostErrorView::ProtocolError(m) => BridgeErrorView::ProtocolError(m),
        HostErrorView::SerialPortError(m) => BridgeErrorView::ConnectionError(m),
        HostErrorView::ConfigurationError(m) => BridgeErrorView::ConfigurationError(m),
    }
}

/// The error of the bridge for an error of the device layer: each kind
/// stays what it is, an error that the device reports is a command error,
/// and an error of the link is what [`link_error`] makes of it.
pub open spec fn device_error(e: MiernikErrorView) -> BridgeErrorView {
    match e {
        MiernikErrorView::DeviceError(m) => BridgeErrorView::CommandError(m),
        MiernikErrorView::InvalidCommand(m) => BridgeErrorView::InvalidCommand(m),
        MiernikErrorView::ProtocolError(m) => BridgeErrorView::ProtocolError(m),
        MiernikErrorView::ConfigurationError(m) => BridgeErrorView::ConfigurationError(m),
        MiernikErrorView::HostError(e) => link_error(e),
    }
}

/// The error of the bridge for an error of the link.
pub fn bridge_link_error(e: HostError) -> (r: BridgeError)
    ensures
        r@ == link_error(e@),
{
    match e {
        HostError::ConnectionError(m) => BridgeError::ConnectionError(m),
        HostError::IoError(m) => BridgeError::IoError(m),
        HostError::Timeout(m) => BridgeError::Timeout(m),
        HostError::ProtocolError(m) => BridgeError::ProtocolError(m),
        HostError::SerialPortError(m) => BridgeError::ConnectionError(m),
        HostError::ConfigurationError(m) => BridgeError::ConfigurationError(m),
    }
}

/// The error of the bridge for an error of the device layer.
pub fn bridge_device_error(e: MiernikError) -> (r: BridgeError)
    ensures
        r@ == device_error(e@),
{
    match e {
        MiernikError::DeviceError(m) => BridgeError::CommandError(m),
        MiernikError::InvalidCommand(m) => BridgeError::InvalidCommand(m),
        MiernikError::ProtocolError(m) => BridgeError::ProtocolError(m),
        MiernikError::ConfigurationError(m) => BridgeError::ConfigurationError(m),
        MiernikError::HostError(e) => bridge_link_error(e),
    }
}

/// What reading an answer returned, as a result of the bridge.
pub open spec fn bridge_reading(r: Result<WeightReadingView, MiernikErrorView>) -> Result<
    WeightReadingView,
    BridgeErrorView,
> {
    match r {
        Ok(reading) => Ok(reading),
        Err(e) => Err(device_error(e)),
    }
}

/// The link that a descriptor stands for, not yet open.
pub open spec fn described_connection(descriptor: ConnectionView)
    -> crate::host::connection::ConnectionView {
    match descriptor {
        ConnectionView::Tcp { host, port, timeout_ms } => crate::host::connection::ConnectionView {
            connection_type: ConnectionTypeView::Tcp { host, port },
            timeout_ms,
            link: LinkState::Closed,
        },
        ConnectionView::Serial {
            port,
            baud_rate,
            data_bits,
            stop_bits,
            parity,
            flow_control,
            timeout_ms,
        } => crate::host::connection::ConnectionView {
            connection_type: ConnectionTypeView::Serial {
                port_path: port,
                baud_rate,
                data_bits,
                stop_bits,
                parity,
                flow_control,
            },
            timeout_ms,
            link: LinkState::Closed,
        },
    }
}

/// The link that a descriptor stands for, not yet open.
pub fn connection_of(descriptor: Connection) -> (c: crate::host::connection::Connection)
    ensures
        c@ == described_connection(descriptor@),
{
    match descriptor {
        Connection::Tcp { host, port, timeout_ms } => crate::host::connection::Connection::tcp(
            host,
            port,
            timeout_ms,
        ),
        Connection::Serial {
            port,
            baud_rate,
            data_bits,
            stop_bits,
            parity,
            flow_control,
            timeout_ms,
        } => crate::host::connection::Connection::serial(
            port,
            baud_rate,
            data_bits,
            stop_bits,
            parity,
            flow_control,
            timeout_ms,
        ),
    }
}

/// The message of a serial link whose number of data bits no serial line
/// has.
pub open spec fn invalid_data_bits(bits: u8) -> Seq<char> {
    "Invalid data bits: "@ + decimal_text(bits as nat) + ". Must be 5, 6, 7, or 8"@
}

/// What a step of the exchange means for an adapter of the dialect
/// `protocol`: input and output are passed on, an answer is read in the
/// dialect, and an error of the link keeps its kind.
pub open spec fn adapter_step(step: StepView, protocol: ProtocolView, timestamp: i64)
    -> AdapterStepView {
    match step {
        StepView::Open(request) => AdapterStepView::Open(request),
        StepView::Write { bytes, timeout_ms } => AdapterStepView::Write { bytes, timeout_ms },
        StepView::Read { timeout_ms } => AdapterStepView::Read { timeout_ms },
        StepView::Done(Ok(response)) => AdapterStepView::Finished(
            bridge_reading(reading_of(protocol, response, timestamp)),
        ),
        StepView::Done(Err(e)) => AdapterStepView::Finished(Err(link_error(e))),
    }
}

/// Turns a step of the exchange into a step of an adapter.
pub fn step_for_adapter(step: Step, protocol: &Protocol, timestamp: i64) -> (r: AdapterStep)
    ensures
        r@ == adapter_step(step@, protocol@, timestamp),
{
    match step {
        Step::Open(request) => AdapterStep::Open(request),
        Step::Write { bytes, timeout_ms } => AdapterStep::Write { bytes, timeout_ms },
        Step::Read { timeout_ms } => AdapterStep::Read { timeout_ms },
        Step::Done(Ok(response)) => AdapterStep::Finished(
            match read_response(protocol, response.as_str(), timestamp) {
                Ok(reading) => Ok(reading),
                Err(e) => Err(bridge_device_error(e)),
            },
        ),
        Step::Done(Err(e)) => AdapterStep::Finished(Err(bridge_link_error(e))),
    }
}

/// A link that stays open from one command to the next, with the commands
/// of the device under their names in lowercase.
#[derive(Debug)]
pub struct LinkAdapter {
    pub device_id: String,
    pub executor: CommandExecutor,
    pub commands: TextMap<String>,
}

/// The mathematical content of a [`LinkAdapter`].
pub struct AdapterView {
    pub device_id: Seq<char>,
    pub executor: ExecutorView,
    pub commands: Seq<(Seq<char>, Seq<char>)>,
}

impl View for LinkAdapter {
    type V = AdapterView;

    open spec fn view(&self) -> AdapterView {
        AdapterView {
            device_id: self.device_id@,
            executor: self.executor@,
            commands: self.commands@,
        }
    }
}

/// What the result of a report holds, with the error replaced by its view.
pub open spec fn unit_view(r: Result<(), BridgeError>) -> Result<(), BridgeErrorView> {
    match r {
        Ok(_) => Ok(()),
        Err(e) => Err(e@),
    }
}

impl AdapterView {
    /// The adapter that is made for the device `device_id` from a
    /// descriptor of its link, the dialect and the commands as they were
    /// configured.
    pub open spec fn made(
        device_id: Seq<char>,
        descriptor: ConnectionView,
        protocol: ProtocolView,
        commands: Seq<(Seq<char>, Seq<char>)>,
    ) -> AdapterView {
        AdapterView {
            device_id,
            executor: ExecutorView {
                connection: described_connection(descriptor),
                protocol,
                fresh_connection: false,
                phase: PhaseView::Ready,
            },
            commands: lowercase_keys(commands),
        }
    }

    /// The adapter with its executor replaced.
    pub open spec fn with_executor(self, executor: ExecutorView) -> AdapterView {
        AdapterView { executor, ..self }
    }

    /// Whether the link is open and free.
    pub open spec fn is_connected(self) -> bool {
        self.executor.connection.is_connected()
    }

    /// The error that keeps a serial link from being opened: a number of
    /// data bits that no serial line has.
    pub open spec fn settings_error(self) -> Option<BridgeErrorView> {
        match self.executor.connection.connection_type {
            ConnectionTypeView::Serial { data_bits, .. } => if valid_data_bits(data_bits) {
                None
            } else {
                Some(BridgeErrorView::ConfigurationError(invalid_data_bits(data_bits)))
            },
            _ => None,
        }
    }

    /// What a request to connect asks for: nothing where the link is open;
    /// else to open it, unless its settings are in error.
    pub open spec fn connect(self) -> Result<ConnectStepView, BridgeErrorView> {
        if self.is_connected() {
            Ok(ConnectStepView::AlreadyConnected)
        } else {
            match self.settings_error() {
                Some(e) => Err(e),
                None => Ok(ConnectStepView::Open(self.executor.connection.open_request())),
            }
        }
    }

    /// The adapter after an attempt to open its link.
    pub open spec fn opened(self, outcome: OpenOutcomeView) -> AdapterView {
        self.with_executor(
            ExecutorView { connection: self.executor.connection.opened(outcome), ..self.executor },
        )
    }

    /// What an attempt to open the link is reported as.
    pub open spec fn open_result(self, outcome: OpenOutcomeView) -> Result<(), BridgeErrorView> {
        match self.executor.connection.open_result(outcome) {
            Ok(_) => Ok(()),
            Err(e) => Err(link_error(e)),
        }
    }

    /// The adapter with its link closed.
    pub open spec fn disconnected(self) -> AdapterView {
        self.with_executor(
            ExecutorView {
                connection: self.executor.connection.with_link(LinkState::Closed),
                ..self.executor
            },
        )
    }

    /// The start of the exchange of the bytes `frame`. Where the link would
    /// have to be opened and its settings are in error, the command fails
    /// and nothing changes.
    pub open spec fn begin(self, frame: Seq<u8>, timestamp: i64) -> (AdapterView, AdapterStepView) {
        if !self.is_connected() && self.settings_error() is Some {
            (self, AdapterStepView::Finished(Err(self.settings_error()->0)))
        } else {
            let (executor, step) = self.executor.begin_frame(frame);
            (self.with_executor(executor), adapter_step(step, self.executor.protocol, timestamp))
        }
    }

    /// What an event makes of a command under way.
    pub open spec fn advance(self, event: EventView, timestamp: i64) -> (
        AdapterView,
        AdapterStepView,
    ) {
        let (executor, step) = self.executor.advance(event);
        (self.with_executor(executor), adapter_step(step, self.executor.protocol, timestamp))
    }
}

impl LinkAdapter {
    /// An adapter for the device `device_id`.
    pub fn new(
        device_id: String,
        connection: Connection,
        protocol: Protocol,
        commands: &TextMap<String>,
    ) -> (r: LinkAdapter)
        ensures
            r@ == AdapterView::made(device_id@, connection@, protocol@, commands@),
    {
        LinkAdapter {
            device_id,
            executor: CommandExecutor::pooled(connection_of(connection), protocol),
            commands: normalized_commands(commands),
        }
    }

    /// The error that keeps a serial link from being opened.
    pub fn settings_error(&self) -> (r: Option<BridgeError>)
        ensures
            match r {
                Some(e) => self@.settings_error() == Some(e@),
                None => self@.settings_error() is None,
            },
    {
        match &self.executor.connection.connection_type {
            ConnectionType::Serial { data_bits, .. } => {
                if 5 <= *data_bits && *data_bits <= 8 {
                    None
                } else {
                    let digits = decimal_string(*data_bits as u64);
                    Some(
                        BridgeError::ConfigurationError(
                            join3("Invalid data bits: ", digits.as_str(), ". Must be 5, 6, 7, or 8"),
                        ),
                    )
                }
            },
            _ => None,
        }
    }

    /// Whether the link is open and free.
    pub fn is_connected(&self) -> (b: bool)
        ensures
            b == self@.is_connected(),
    {
        self.executor.is_connected()
    }

    /// What a request to connect asks for.
    pub fn connect(&self) -> (r: Result<ConnectStep, BridgeError>)
        ensures
            result_view(r) == self@.connect(),
    {
        if self.is_connected() {
            return Ok(ConnectStep::AlreadyConnected);
        }
        match self.settings_error() {
            Some(e) => Err(e),
            None => Ok(ConnectStep::Open(self.executor.connection.open_request())),
        }
    }

    /// Takes the outcome of an attempt to open the link.
    pub fn finish_connect(&mut self, outcome: OpenOutcome) -> (r: Result<(), BridgeError>)
        ensures
            final(self)@ == old(self)@.opened(outcome@),
            unit_view(r) == old(self)@.open_result(outcome@),
    {
        match self.executor.connection.finish_connect(outcome) {
            Ok(_) => Ok(()),
            Err(e) => Err(bridge_link_error(e)),
        }
    }

    /// Lets go of the link. It never fails.
    pub fn disconnect(&mut self) -> (r: Result<(), BridgeError>)
        ensures
            final(self)@ == old(self)@.disconnected(),
            r is Ok,
    {
        let _ = self.executor.connection.disconnect();
        Ok(())
    }

    /// Starts the exchange of the bytes `frame` as of the time `timestamp`.
    pub fn begin(&mut self, frame: Vec<u8>, timestamp: i64) -> (step: AdapterStep)
        ensures
            (final(self)@, step@) == old(self)@.begin(frame@, timestamp),
    {
        if !self.is_connected() {
            match self.settings_error() {
                Some(e) => {
                    return AdapterStep::Finished(Err(e));
                },
                None => {},
            }
        }
        let step = self.executor.execute_frame(frame);
        step_for_adapter(step, &self.executor.protocol, timestamp)
    }

    /// Takes what came of the last step as of the time `timestamp`.
    pub fn advance(&mut self, event: Event, timestamp: i64) -> (step: AdapterStep)
        ensures
            (final(self)@, step@) == old(self)@.advance(event@, timestamp),
    {
        let step = self.executor.advance(event);
        step_for_adapter(step, &self.executor.protocol, timestamp)
    }

    /// A copy of the adapter.
    pub fn copy(&self) -> (r: LinkAdapter)
        ensures
            r@ == self@,
    {
        LinkAdapter {
            device_id: self.device_id.clone(),
            executor: self.executor.copy(),
            commands: self.commands.copy(),
        }
    }
}

/// What every adapter offers, whatever its dialect: to connect, to
/// disconnect, to say whether it is connected, and to run a command step by
/// step.
pub trait DeviceAdapter: View<V = AdapterView> + Sized {
    /// The start of a command in the dialect of the adapter.
    spec fn executed(adapter: AdapterView, command: Seq<char>, timestamp: i64) -> (
        AdapterView,
        AdapterStepView,
    );

    /// What a request to connect asks for.
    fn connect(&self) -> (r: Result<ConnectStep, BridgeError>)
        ensures
            result_view(r) == self@.connect(),
    ;

    /// Takes the outcome of an attempt to open the link.
    fn finish_connect(&mut self, outcome: OpenOutcome) -> (r: Result<(), BridgeError>)
        ensures
            final(self)@ == old(self)@.opened(outcome@),
            unit_view(r) == old(self)@.open_result(outcome@),
    ;

    /// Lets go of the link. It never fails.
    fn disconnect(&mut self) -> (r: Result<(), BridgeError>)
        ensures
            final(self)@ == old(self)@.disconnected(),
            r is Ok,
    ;

    /// Whether the link is open and free.
    fn is_connected(&self) -> (b: bool)
        ensures
            b == self@.is_connected(),
    ;

    /// Starts the command `command` and says what to do first.
    fn execute_command(&mut self, command: &str) -> (step: AdapterStep)
        ensures
            exists|timestamp: i64|
                (final(self)@, step@) == #[trigger] Self::executed(
                    old(self)@,
                    command@,
                    timestamp,
                ),
    ;

    /// Takes what came of the last step and says what to do next.
    fn advance(&mut self, event: Event) -> (step: AdapterStep)
        ensures
            exists|timestamp: i64|
                (final(self)@, step@) == #[trigger] old(self)@.advance(event@, timestamp),
    ;
}

} // verus!
