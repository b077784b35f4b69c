//! A device: a link, a dialect and the commands the device knows.
//!
//! A [`Device`] turns the name of a command into an exchange over its link
//! and the answer into a weight reading. Like the exchange below it, it is
//! driven from outside: [`Device::execute_command`] says what to do first
//! and [`Device::advance`] what to do after each step.

use crate::host::commands::CommandExecutor;
use crate::host::commands::Event;
use crate::host::commands::EventView;
use crate::host::commands::ExecutorView;
use crate::host::commands::Step;
use crate::host::commands::StepView;
use crate::host::connection::ConnectStep;
use crate::host::connection::Connection;
use crate::host::connection::LinkState;
use crate::host::connection::OpenOutcome;
use crate::host::connection::OpenOutcomeView;
use crate::host::connection::OpenRequest;
use crate::host::connection::OpenRequestView;
use crate::host::error::HostErrorView;
use crate::host::protocol::Protocol;
use crate::host::protocol::ProtocolView;
use crate::miernik::error::MiernikError;
use crate::miernik::error::MiernikErrorView;
use crate::miernik::parsers::dini_reading;
use crate::miernik::parsers::dini_reading_at;
use crate::miernik::parsers::rincmd_reading;
use crate::miernik::parsers::rincmd_reading_at;
use crate::models::weight::WeightReading;
use crate::models::weight::WeightReadingView;
use crate::text::lowercase_of;
use crate::text_map::lookup;
use crate::text_map::Record;
use crate::text_map::TextMap;
use crate::views::join;
use crate::views::result_view;
use vstd::prelude::*;

verus! {

/// What the holder of the socket or port does next for a device.
#[derive(Debug)]
pub enum DeviceStep {
    /// Drop any handle held for this link, open the link anew and report
    /// how it went.
    Open(OpenRequest),
    /// Write all the bytes, flush, and report how it went.
    Write { bytes: Vec<u8>, timeout_ms: u32 },
    /// Read once and report what came.
    Read { timeout_ms: u32 },
    /// The command is done: the reading, or why there is none.
    Finished(Result<WeightReading, MiernikError>),
}

/// The mathematical content of a [`DeviceStep`].
pub enum DeviceStepView {
    Open(OpenRequestView),
    Write { bytes: Seq<u8>, timeout_ms: u32 },
    Read { timeout_ms: u32 },
    Finished(Result<WeightReadingView, MiernikErrorView>),
}

impl View for DeviceStep {
    type V = DeviceStepView;

    open spec fn view(&self) -> DeviceStepView {
        match self {
            DeviceStep::Open(request) => DeviceStepView::Open(request@),
            DeviceStep::Write { bytes, timeout_ms } => DeviceStepView::Write {
                bytes: bytes@,
                timeout_ms: *timeout_ms,
            },
            DeviceStep::Read { timeout_ms } => DeviceStepView::Read { timeout_ms: *timeout_ms },
            DeviceStep::Finished(result) => DeviceStepView::Finished(result_view(*result)),
        }
    }
}

impl DeviceStepView {
    /// Whether the step asks for input or output on the link.
    pub open spec fn touches_link(self) -> bool {
        !(self is Finished)
    }
}

/// A scale behind a link.
#[derive(Debug)]
pub struct Device {
    pub device_id: String,
    pub command_executor: CommandExecutor,
    pub command_map: TextMap<String>,
}

/// The mathematical content of a [`Device`].
pub struct DeviceView {
    pub device_id: Seq<char>,
    pub executor: ExecutorView,
    pub command_map: Seq<(Seq<char>, Seq<char>)>,
}

impl View for Device {
    type V = DeviceView;

    open spec fn view(&self) -> DeviceView {
        DeviceView {
            device_id: self.device_id@,
            executor: self.command_executor@,
            command_map: self.command_map@,
        }
    }
}

/// The reading that an answer stands for in a dialect. An answer in a
/// dialect that is not known is read as a Rinstrum answer and, where that
/// fails, as a Dini Argeo one.
pub open spec fn reading_of(protocol: ProtocolView, response: Seq<char>, timestamp: i64) -> Result<
    WeightReadingView,
    MiernikErrorView,
> {
    match protocol {
        ProtocolView::Rincmd => rincmd_reading(response, timestamp),
        ProtocolView::DiniAscii => dini_reading(response, timestamp),
        ProtocolView::Custom(_) => match rincmd_reading(response, timestamp) {
            Ok(reading) => Ok(reading),
            Err(_) => dini_reading(response, timestamp),
        },
    }
}

/// The message of a command that the device does not know.
pub open spec fn unknown_command(command: Seq<char>) -> Seq<char> {
    "Unknown command: "@ + command
}

/// What a step of the exchange means for the device: input and output are
/// passed on, an answer is read in the dialect, and an error of the link
/// is handed on as it is, with its kind.
pub open spec fn device_step(step: StepView, protocol: ProtocolView, timestamp: i64)
    -> DeviceStepView {
    match step {
        StepView::Open(request) => DeviceStepView::Open(request),
        StepView::Write { bytes, timeout_ms } => DeviceStepView::Write { bytes, timeout_ms },
        StepView::Read { timeout_ms } => DeviceStepView::Read { timeout_ms },
        StepView::Done(Ok(response)) => DeviceStepView::Finished(
            reading_of(protocol, response, timestamp),
        ),
        StepView::Done(Err(e)) => DeviceStepView::Finished(
            Err(MiernikErrorView::HostError(e)),
        ),
    }
}

impl DeviceView {
    /// The device with its executor replaced.
    pub open spec fn with_executor(self, executor: ExecutorView) -> DeviceView {
        DeviceView { executor, ..self }
    }

    /// The bytes-level command that stands under the name of a command:
    /// names are looked up in lowercase.
    pub open spec fn raw_command(self, command: Seq<char>) -> Option<Seq<char>> {
        lookup(self.command_map, lowercase_of(command))
    }

    /// Whether the link of the device is open and free.
    pub open spec fn is_connected(self) -> bool {
        self.executor.connection.is_connected()
    }

    /// The start of a command. A name that the device does not know fails
    /// at once and leaves the device as it is; a known one starts an
    /// exchange of what stands under it.
    pub open spec fn execute_command(self, command: Seq<char>, timestamp: i64) -> (
        DeviceView,
        DeviceStepView,
    ) {
        match self.raw_command(command) {
            Some(raw) => {
                let (executor, step) = self.executor.begin(raw);
                (
                    self.with_executor(executor),
                    device_step(step, self.executor.protocol, timestamp),
                )
            },
            None => (
                self,
                DeviceStepView::Finished(
                    Err(MiernikErrorView::InvalidCommand(unknown_command(command))),
                ),
            ),
        }
    }

    /// What an event makes of a command under way.
    pub open spec fn advance(self, event: EventView, timestamp: i64) -> (
        DeviceView,
        DeviceStepView,
    ) {
        let (executor, step) = self.executor.advance(event);
        (self.with_executor(executor), device_step(step, self.executor.protocol, timestamp))
    }

    /// The device after an attempt to open its link.
    pub open spec fn opened(self, outcome: OpenOutcomeView) -> DeviceView {
        self.with_executor(
            ExecutorView { connection: self.executor.connection.opened(outcome), ..self.executor },
        )
    }

    /// What an attempt to open the link is reported as.
    pub open spec fn open_result(self, outcome: OpenOutcomeView) -> Result<(), MiernikErrorView> {
        match self.executor.connection.open_result(outcome) {
            Ok(_) => Ok(()),
            Err(e) => Err(MiernikErrorView::HostError(e)),
        }
    }

    /// The device with its link closed.
    pub open spec fn disconnected(self) -> DeviceView {
        self.with_executor(
            ExecutorView {
                connection: self.executor.connection.with_link(LinkState::Closed),
                ..self.executor
            },
        )
    }
}

/// Reads an answer in a dialect as of the time `timestamp`.
pub fn read_response(protocol: &Protocol, response: &str, timestamp: i64) -> (r: Result<
    WeightReading,
    MiernikError,
>)
    ensures
        result_view(r) == reading_of(protocol@, response@, timestamp),
{
    match protocol {
        Protocol::Rincmd => rincmd_reading_at(response, timestamp),
        Protocol::DiniAscii => dini_reading_at(response, timestamp),
        Protocol::Custom(_) => match rincmd_reading_at(response, timestamp) {
            Ok(reading) => Ok(reading),
            Err(_) => dini_reading_at(response, timestamp),
        },
    }
}

/// Turns a step of the exchange into a step of the device as of the time
/// `timestamp`.
pub fn step_for_device(step: Step, protocol: &Protocol, timestamp: i64) -> (r: DeviceStep)
    ensures
        r@ == device_step(step@, protocol@, timestamp),
{
    match step {
        Step::Open(request) => DeviceStep::Open(request),
        Step::Write { bytes, timeout_ms } => DeviceStep::Write { bytes, timeout_ms },
        Step::Read { timeout_ms } => DeviceStep::Read { timeout_ms },
        Step::Done(Ok(response)) => DeviceStep::Finished(
            read_response(protocol, response.as_str(), timestamp),
        ),
        Step::Done(Err(e)) => DeviceStep::Finished(Err(MiernikError::HostError(e))),
    }
}

/// What the result of a report holds, with the error replaced by its view.
pub open spec fn unit_view(r: Result<(), MiernikError>) -> Result<(), MiernikErrorView> {
    match r {
        Ok(_) => Ok(()),
        Err(e) => Err(e@),
    }
}

impl Device {
    /// A device on `connection` that speaks `protocol` and knows the
    /// commands of `command_map`, whose names are in lowercase.
    pub fn new(
        device_id: String,
        connection: Connection,
        protocol: Protocol,
        command_map: TextMap<String>,
    ) -> (device: Device)
        ensures
            device@ == (DeviceView {
                device_id: device_id@,
                executor: ExecutorView {
                    connection: connection@,
                    protocol: protocol@,
                    fresh_connection: connection@.connection_type is Tcp,
                    phase: crate::host::commands::PhaseView::Ready,
                },
                command_map: command_map@,
            }),
    {
        Device {
            device_id,
            command_executor: CommandExecutor::new(connection, protocol),
            command_map,
        }
    }

    /// What a request to connect asks for: nothing where the link is open,
    /// else to open it and to report the outcome to
    /// [`Device::finish_connect`].
    pub fn connect(&self) -> (step: ConnectStep)
        ensures
            step@ == self@.executor.connection.connect(),
    {
        self.command_executor.connection.connect()
    }

    /// Takes the outcome of an attempt to open the link.
    pub fn finish_connect(&mut self, outcome: OpenOutcome) -> (r: Result<(), MiernikError>)
        ensures
            final(self)@ == old(self)@.opened(outcome@),
            unit_view(r) == old(self)@.open_result(outcome@),
    {
        match self.command_executor.connection.finish_connect(outcome) {
            Ok(_) => Ok(()),
            Err(e) => Err(MiernikError::HostError(e)),
        }
    }

    /// Lets go of the link. It never fails.
    pub fn disconnect(&mut self) -> (r: Result<(), MiernikError>)
        ensures
            final(self)@ == old(self)@.disconnected(),
            r is Ok,
    {
        let _ = self.command_executor.connection.disconnect();
        Ok(())
    }

    /// Whether the link is open and free.
    pub fn is_connected(&self) -> (b: bool)
        ensures
            b == self@.is_connected(),
    {
        self.command_executor.is_connected()
    }

    /// Starts the command `command` as of the time `timestamp` and says
    /// what to do first.
    pub fn execute_command_at(&mut self, command: &str, timestamp: i64) -> (step: DeviceStep)
        ensures
            (final(self)@, step@) == old(self)@.execute_command(command@, timestamp),
    {
        let name = command.to_lowercase();
        let raw = match self.command_map.get(name.as_str()) {
            Some(raw) => raw.clone(),
            None => {
                return DeviceStep::Finished(
                    Err(MiernikError::InvalidCommand(join("Unknown command: ", command))),
                );
            },
        };
        let step = self.command_executor.execute(raw.as_str());
        step_for_device(step, &self.command_executor.protocol, timestamp)
    }

    /// Takes what came of the last step, as of the time `timestamp`, and
    /// says what to do next.
    pub fn advance_at(&mut self, event: Event, timestamp: i64) -> (step: DeviceStep)
        ensures
            (final(self)@, step@) == old(self)@.advance(event@, timestamp),
    {
        let step = self.command_executor.advance(event);
        step_for_device(step, &self.command_executor.protocol, timestamp)
    }

    /// Starts the command `command` and says what to do first. A reading
    /// carries the time at which it was read.
    pub fn execute_command(&mut self, command: &str) -> (step: DeviceStep)
        ensures
            exists|timestamp: i64|
                (final(self)@, step@) == #[trigger] old(self)@.execute_command(
                    command@,
                    timestamp,
                ),
    {
        let timestamp = crate::clock::now_millis();
        self.execute_command_at(command, timestamp)
    }

    /// Takes what came of the last step and says what to do next. A
    /// reading carries the time at which it was read.
    pub fn advance(&mut self, event: Event) -> (step: DeviceStep)
        ensures
            exists|timestamp: i64|
                (final(self)@, step@) == #[trigger] old(self)@.advance(event@, timestamp),
    {
        let timestamp = crate::clock::now_millis();
        self.advance_at(event, timestamp)
    }
}

impl Record for Device {
    fn copy(&self) -> (r: Device) {
        Device {
            device_id: self.device_id.clone(),
            command_executor: self.command_executor.copy(),
            command_map: self.command_map.copy(),
        }
    }
}

/// Looking a command up does not depend on the case of its name: a device
/// whose commands were configured as `configured`, one of them under the
/// name `name`, knows that command under every `asked` with the same
/// lowercase form.
pub proof fn lemma_command_names_ignore_case(
    device: DeviceView,
    configured: Seq<(Seq<char>, Seq<char>)>,
    name: Seq<char>,
    asked: Seq<char>,
)
    requires
        device.command_map == crate::miernik::devices::lowercase_keys(configured),
        crate::text_map::has_key(configured, name),
        lowercase_of(asked) == lowercase_of(name),
    ensures
        device.raw_command(asked) is Some,
{
    crate::miernik::devices::lemma_lookup_ignores_case(configured, name, asked);
}

/// A command that was configured under a name of ASCII characters is known
/// under every spelling of that name that differs from it only in the case
/// of letters: under each the device finds what it finds under the name
/// itself, and the command is not refused as unknown.
pub proof fn lemma_command_found_in_any_case(
    device: DeviceView,
    configured: Seq<(Seq<char>, Seq<char>)>,
    name: Seq<char>,
    asked: Seq<char>,
    timestamp: i64,
)
    requires
        device.command_map == crate::miernik::devices::lowercase_keys(configured),
        crate::text_map::has_key(configured, name),
        crate::text::is_ascii_text(name),
        crate::text::is_ascii_text(asked),
        crate::text::same_ignoring_case(asked, name),
    ensures
        device.raw_command(asked) is Some,
        device.raw_command(asked) == device.raw_command(name),
        !(device.execute_command(asked, timestamp).1 matches DeviceStepView::Finished(
            Err(MiernikErrorView::InvalidCommand(_)),
        )),
{
    crate::text::lemma_lowercase_ignores_case(asked, name);
    crate::miernik::devices::lemma_lookup_ignores_case(configured, name, asked);
}

/// A device whose one command was configured as `readGross` finds it under
/// `readgross`, `READGROSS` and `ReadGross` alike, and what it hands to the
/// link is what was configured.
pub proof fn lemma_read_gross_in_any_case(device: DeviceView, raw: Seq<char>)
    requires
        device.command_map == crate::miernik::devices::lowercase_keys(seq![("readGross"@, raw)]),
    ensures
        device.raw_command("readGross"@) == Some(raw),
        device.raw_command("readgross"@) == Some(raw),
        device.raw_command("READGROSS"@) == Some(raw),
        device.raw_command("ReadGross"@) == Some(raw),
{
    reveal_strlit("readGross");
    reveal_strlit("readgross");
    reveal_strlit("READGROSS");
    reveal_strlit("ReadGross");
    let configured = seq![("readGross"@, raw)];
    assert(lowercase_of("readGross"@) =~= "readgross"@);
    assert(lowercase_of("readgross"@) =~= "readgross"@);
    assert(lowercase_of("READGROSS"@) =~= "readgross"@);
    assert(lowercase_of("ReadGross"@) =~= "readgross"@);
    assert(configured.drop_last() =~= Seq::empty());
    assert(crate::miernik::devices::lowercase_keys(configured.drop_last()) =~= Seq::empty());
    crate::text_map::lemma_with_entry(
        Seq::<(Seq<char>, Seq<char>)>::empty(),
        "readgross"@,
        raw,
    );
}

/// While a command is under way on a device, a second command to the same
/// device is refused and changes nothing: the two never share the link.
pub proof fn lemma_busy_device_refuses(device: DeviceView, command: Seq<char>, timestamp: i64)
    requires
        !(device.executor.phase is Ready),
    ensures
        device.execute_command(command, timestamp).0 == device,
        !device.execute_command(command, timestamp).1.touches_link(),
{
}

/// What every adapter of a device offers, whatever the kind of the device:
/// to connect, to disconnect, to say whether it is connected, and to run a
/// command step by step.
pub trait DeviceAdapter: View<V = DeviceView> + Sized {
    /// What a request to connect asks for.
    fn connect(&self) -> (step: ConnectStep)
        ensures
            step@ == self@.executor.connection.connect(),
    ;

    /// Takes the outcome of an attempt to open the link.
    fn finish_connect(&mut self, outcome: OpenOutcome) -> (r: Result<(), MiernikError>)
        ensures
            final(self)@ == old(self)@.opened(outcome@),
            unit_view(r) == old(self)@.open_result(outcome@),
    ;

    /// Lets go of the link. It never fails.
    fn disconnect(&mut self) -> (r: Result<(), MiernikError>)
        ensures
            final(self)@ == old(self)@.disconnected(),
            r is Ok,
    ;

    /// Whether the link is open and free.
    fn is_connected(&self) -> (b: bool)
        ensures
            b == self@.is_connected(),
    ;

    /// Starts the command `command` and says what to do first.
    fn execute_command(&mut self, command: &str) -> (step: DeviceStep)
        ensures
            exists|timestamp: i64|
                (final(self)@, step@) == #[trigger] old(self)@.execute_command(
                    command@,
                    timestamp,
                ),
    ;

    /// Takes what came of the last step and says what to do next.
    fn advance(&mut self, event: Event) -> (step: DeviceStep)
        ensures
            exists|timestamp: i64|
                (final(self)@, step@) == #[trigger] old(self)@.advance(event@, timestamp),
    ;
}

impl DeviceAdapter for Device {
    fn connect(&self) -> (step: ConnectStep) {
        Device::connect(self)
    }

    fn finish_connect(&mut self, outcome: OpenOutcome) -> (r: Result<(), MiernikError>) {
        Device::finish_connect(self, outcome)
    }

    fn disconnect(&mut self) -> (r: Result<(), MiernikError>) {
        Device::disconnect(self)
    }

    fn is_connected(&self) -> (b: bool) {
        Device::is_connected(self)
    }

    fn execute_command(&mut self, command: &str) -> (step: DeviceStep) {
        let timestamp = crate::clock::now_millis();
        Device::execute_command_at(self, command, timestamp)
    }

    fn advance(&mut self, event: Event) -> (step: DeviceStep) {
        let timestamp = crate::clock::now_millis();
        Device::advance_at(self, event, timestamp)
    }
}

} // verus!
