//! The two kinds of scale that are understood.

use crate::host::commands::Event;
use crate::host::connection::ConnectStep;
use crate::host::connection::Connection;
use crate::host::connection::OpenOutcome;
use crate::host::protocol::Protocol;
use crate::miernik::device::unit_view;
use crate::miernik::device::Device;
use crate::miernik::device::DeviceStep;
use crate::miernik::device::DeviceView;
use crate::miernik::error::MiernikError;
use crate::miernik::models::DeviceConfig;
use crate::text::lowercase_of;
use crate::text_map::distinct_keys;
use crate::text_map::has_key;
use crate::text_map::lookup;
use crate::text_map::with_entry;
use crate::text_map::Record;
use crate::text_map::TextMap;
use vstd::prelude::*;

verus! {

/// The commands of `entries` under their names in lowercase. Where two
/// names differ in case only, the later one takes the place of the earlier.
pub open spec fn lowercase_keys(entries: Seq<(Seq<char>, Seq<char>)>) -> Seq<
    (Seq<char>, Seq<char>),
>
    decreases entries.len(),
{
    if entries.len() == 0 {
        Seq::empty()
    } else {
        with_entry(
            lowercase_keys(entries.drop_last()),
            lowercase_of(entries.last().0),
            entries.last().1,
        )
    }
}

/// The names of the commands in lowercase are distinct, and every command
/// is found under its name in lowercase.
pub proof fn lemma_lowercase_keys(entries: Seq<(Seq<char>, Seq<char>)>)
    ensures
        distinct_keys(lowercase_keys(entries)),
        forall|i: int|
            0 <= i < entries.len() ==> has_key(
                lowercase_keys(entries),
                lowercase_of(#[trigger] entries[i].0),
            ),
    decreases entries.len(),
{
    if entries.len() > 0 {
        let rest = entries.drop_last();
        lemma_lowercase_keys(rest);
        let key = lowercase_of(entries.last().0);
        crate::text_map::lemma_with_entry(lowercase_keys(rest), key, entries.last().1);
        assert forall|i: int| 0 <= i < entries.len() implies has_key(
            lowercase_keys(entries),
            lowercase_of(#[trigger] entries[i].0),
        ) by {
            let name = lowercase_of(entries[i].0);
            if name != key {
                assert(entries[i] == rest[i]);
                assert(has_key(lowercase_keys(rest), lowercase_of(rest[i].0)));
                assert(lookup(lowercase_keys(entries), name) == lookup(
                    lowercase_keys(rest),
                    name,
                ));
            } else {
                assert(lookup(lowercase_keys(entries), key) is Some);
            }
        }
    }
}

/// Looking a command up does not depend on the case of its name: a command
/// that was configured under `configured` is found under every `asked`
/// that has the same lowercase form.
pub proof fn lemma_lookup_ignores_case(
    entries: Seq<(Seq<char>, Seq<char>)>,
    configured: Seq<char>,
    asked: Seq<char>,
)
    requires
        has_key(entries, configured),
        lowercase_of(asked) == lowercase_of(configured),
    ensures
        lookup(lowercase_keys(entries), lowercase_of(asked)) is Some,
{
    crate::text_map::lemma_position(entries, configured);
    lemma_lowercase_keys(entries);
    let i = crate::text_map::position(entries, configured);
    assert(entries[i].0 == configured);
    assert(has_key(lowercase_keys(entries), lowercase_of(entries[i].0)));
}

/// The commands of `commands` under their names in lowercase.
pub fn normalized_commands(commands: &TextMap<String>) -> (r: TextMap<String>)
    ensures
        r@ == lowercase_keys(commands@),
{
    let mut r: TextMap<String> = TextMap::new();
    let mut i: usize = 0;
    assert(commands@.take(0) =~= Seq::empty());
    while i < commands.len()
        invariant
            i <= commands@.len(),
            r@ == lowercase_keys(commands@.take(i as int)),
        decreases commands@.len() - i,
    {
        let key = commands.key_at(i).as_str().to_lowercase();
        let value = commands.value_at(i).clone();
        proof {
            let next = commands@.take(i as int + 1);
            assert(next.drop_last() =~= commands@.take(i as int));
            assert(next.last() == commands@[i as int]);
        }
        r.insert(key, value);
        i += 1;
    }
    assert(commands@.take(commands@.len() as int) =~= commands@);
    r
}

/// The content of a device that was made for the dialect `protocol`.
pub open spec fn made_device(
    device_id: Seq<char>,
    connection: crate::host::connection::ConnectionView,
    protocol: crate::host::protocol::ProtocolView,
    commands: Seq<(Seq<char>, Seq<char>)>,
) -> DeviceView {
    DeviceView {
        device_id,
        executor: crate::host::commands::ExecutorView {
            connection,
            protocol,
            fresh_connection: connection.connection_type is Tcp,
            phase: crate::host::commands::PhaseView::Ready,
        },
        command_map: commands,
    }
}

/// A Rinstrum C320 indicator.
#[derive(Debug)]
pub struct RinstrumC320 {
    pub device: Device,
}

impl View for RinstrumC320 {
    type V = DeviceView;

    open spec fn view(&self) -> DeviceView {
        self.device@
    }
}

impl RinstrumC320 {
    /// An indicator on `connection` that knows `commands`, whose names are
    /// in lowercase.
    pub fn new(device_id: String, connection: Connection, commands: TextMap<String>) -> (r: Self)
        ensures
            r@ == made_device(
                device_id@,
                connection@,
                crate::host::protocol::ProtocolView::Rincmd,
                commands@,
            ),
    {
        RinstrumC320 { device: Device::new(device_id, connection, Protocol::Rincmd, commands) }
    }

    /// An indicator with the commands of `config`, looked up without
    /// regard to case. It never fails.
    pub fn from_config(device_id: String, config: &DeviceConfig, connection: Connection) -> (r:
        Result<Self, MiernikError>)
        ensures
            r matches Ok(d) && d@ == made_device(
                device_id@,
                connection@,
                crate::host::protocol::ProtocolView::Rincmd,
                lowercase_keys(config@.commands),
            ),
    {
        Ok(Self::new(device_id, connection, normalized_commands(&config.commands)))
    }

    /// What a request to connect asks for.
    pub fn connect(&self) -> (step: ConnectStep)
        ensures
            step@ == self@.executor.connection.connect(),
    {
        self.device.connect()
    }

    /// Takes the outcome of an attempt to open the link.
    pub fn finish_connect(&mut self, outcome: OpenOutcome) -> (r: Result<(), MiernikError>)
        ensures
            final(self)@ == old(self)@.opened(outcome@),
            unit_view(r) == old(self)@.open_result(outcome@),
    {
        self.device.finish_connect(outcome)
    }

    /// Lets go of the link. It never fails.
    pub fn disconnect(&mut self) -> (r: Result<(), MiernikError>)
        ensures
            final(self)@ == old(self)@.disconnected(),
            r is Ok,
    {
        self.device.disconnect()
    }

    /// Whether the link is open and free.
    pub fn is_connected(&self) -> (b: bool)
        ensures
            b == self@.is_connected(),
    {
        self.device.is_connected()
    }

    /// Starts the command `command` and says what to do first.
    pub fn execute_command(&mut self, command: &str) -> (step: DeviceStep)
        ensures
            exists|timestamp: i64|
                (final(self)@, step@) == #[trigger] old(self)@.execute_command(
                    command@,
                    timestamp,
                ),
    {
        let timestamp = crate::clock::now_millis();
        let ghost before = self@;
        let step = self.device.execute_command_at(command, timestamp);
        assert((self@, step@) == before.execute_command(command@, timestamp));
        step
    }

    /// Takes what came of the last step and says what to do next.
    pub fn advance(&mut self, event: Event) -> (step: DeviceStep)
        ensures
            exists|timestamp: i64|
                (final(self)@, step@) == #[trigger] old(self)@.advance(event@, timestamp),
    {
        let timestamp = crate::clock::now_millis();
        let ghost before = self@;
        let ghost happened = event@;
        let step = self.device.advance_at(event, timestamp);
        assert((self@, step@) == before.advance(happened, timestamp));
        step
    }
}

impl Record for RinstrumC320 {
    fn copy(&self) -> (r: RinstrumC320) {
        RinstrumC320 { device: self.device.copy() }
    }
}

/// A Dini Argeo DFW indicator.
#[derive(Debug)]
pub struct DiniArgeoDFW {
    pub device: Device,
}

impl View for DiniArgeoDFW {
    type V = DeviceView;

    open spec fn view(&self) -> DeviceView {
        self.device@
    }
}

impl DiniArgeoDFW {
    /// An indicator on `connection` that knows `commands`, whose names are
    /// in lowercase.
    pub fn new(device_id: String, connection: Connection, commands: TextMap<String>) -> (r: Self)
        ensures
            r@ == made_device(
                device_id@,
                connection@,
                crate::host::protocol::ProtocolView::DiniAscii,
                commands@,
            ),
    {
        DiniArgeoDFW { device: Device::new(device_id, connection, Protocol::DiniAscii, commands) }
    }

    /// An indicator with the commands of `config`, looked up without
    /// regard to case. It never fails.
    pub fn from_config(device_id: String, config: &DeviceConfig, connection: Connection) -> (r:
        Result<Self, MiernikError>)
        ensures
            r matches Ok(d) && d@ == made_device(
                device_id@,
                connection@,
                crate::host::protocol::ProtocolView::DiniAscii,
                lowercase_keys(config@.commands),
            ),
    {
        Ok(Self::new(device_id, connection, normalized_commands(&config.commands)))
    }

    /// What a request to connect asks for.
    pub fn connect(&self) -> (step: ConnectStep)
        ensures
            step@ == self@.executor.connection.connect(),
    {
        self.device.connect()
    }

    /// Takes the outcome of an attempt to open the link.
    pub fn finish_connect(&mut self, outcome: OpenOutcome) -> (r: Result<(), MiernikError>)
        ensures
            final(self)@ == old(self)@.opened(outcome@),
            unit_view(r) == old(self)@.open_result(outcome@),
    {
        self.device.finish_connect(outcome)
    }

    /// Lets go of the link. It never fails.
    pub fn disconnect(&mut self) -> (r: Result<(), MiernikError>)
        ensures
            final(self)@ == old(self)@.disconnected(),
            r is Ok,
    {
        self.device.disconnect()
    }

    /// Whether the link is open and free.
    pub fn is_connected(&self) -> (b: bool)
        ensures
            b == self@.is_connected(),
    {
        self.device.is_connected()
    }

    /// Starts the command `command` and says what to do first.
    pub fn execute_command(&mut self, command: &str) -> (step: DeviceStep)
        ensures
            exists|timestamp: i64|
                (final(self)@, step@) == #[trigger] old(self)@.execute_command(
                    command@,
                    timestamp,
                ),
    {
        let timestamp = crate::clock::now_millis();
        let ghost before = self@;
        let step = self.device.execute_command_at(command, timestamp);
        assert((self@, step@) == before.execute_command(command@, timestamp));
        step
    }

    /// Takes what came of the last step and says what to do next.
    pub fn advance(&mut self, event: Event) -> (step: DeviceStep)
        ensures
            exists|timestamp: i64|
                (final(self)@, step@) == #[trigger] old(self)@.advance(event@, timestamp),
    {
        let timestamp = crate::clock::now_millis();
        let ghost before = self@;
        let ghost happened = event@;
        let step = self.device.advance_at(event, timestamp);
        assert((self@, step@) == before.advance(happened, timestamp));
        step
    }
}

impl Record for DiniArgeoDFW {
    fn copy(&self) -> (r: DiniArgeoDFW) {
        DiniArgeoDFW { device: self.device.copy() }
    }
}

impl crate::miernik::device::DeviceAdapter for RinstrumC320 {
    fn connect(&self) -> (step: ConnectStep) {
        RinstrumC320::connect(self)
    }

    fn finish_connect(&mut self, outcome: OpenOutcome) -> (r: Result<(), MiernikError>) {
        RinstrumC320::finish_connect(self, outcome)
    }

    fn disconnect(&mut self) -> (r: Result<(), MiernikError>) {
        RinstrumC320::disconnect(self)
    }

    fn is_connected(&self) -> (b: bool) {
        RinstrumC320::is_connected(self)
    }

    fn execute_command(&mut self, command: &str) -> (step: DeviceStep) {
        let timestamp = crate::clock::now_millis();
        let ghost before = self@;
        let step = self.device.execute_command_at(command, timestamp);
        assert((self@, step@) == before.execute_command(command@, timestamp));
        step
    }

    fn advance(&mut self, event: Event) -> (step: DeviceStep) {
        let timestamp = crate::clock::now_millis();
        let ghost before = self@;
        let ghost happened = event@;
        let step = self.device.advance_at(event, timestamp);
        assert((self@, step@) == before.advance(happened, timestamp));
        step
    }
}

impl crate::miernik::device::DeviceAdapter for DiniArgeoDFW {
    fn connect(&self) -> (step: ConnectStep) {
        DiniArgeoDFW::connect(self)
    }

    fn finish_connect(&mut self, outcome: OpenOutcome) -> (r: Result<(), MiernikError>) {
        DiniArgeoDFW::finish_connect(self, outcome)
    }

    fn disconnect(&mut self) -> (r: Result<(), MiernikError>) {
        DiniArgeoDFW::disconnect(self)
    }

    fn is_connected(&self) -> (b: bool) {
        DiniArgeoDFW::is_connected(self)
    }

    fn execute_command(&mut self, command: &str) -> (step: DeviceStep) {
        let timestamp = crate::clock::now_millis();
        let ghost before = self@;
        let step = self.device.execute_command_at(command, timestamp);
        assert((self@, step@) == before.execute_command(command@, timestamp));
        step
    }

    fn advance(&mut self, event: Event) -> (step: DeviceStep) {
        let timestamp = crate::clock::now_millis();
        let ghost before = self@;
        let ghost happened = event@;
        let step = self.device.advance_at(event, timestamp);
        assert((self@, step@) == before.advance(happened, timestamp));
        step
    }
}

} // verus!
