//! One command, one answer: how an exchange over a link proceeds.
//!
//! An exchange is a small machine. [`CommandExecutor::execute`] starts it and
//! [`CommandExecutor::advance`] moves it on; each returns the next [`Step`]
//! for whoever holds the socket or port, and takes what came of the last one
//! as an [`Event`]. The machine ends with [`Step::Done`].

use crate::decimal::decimal_string;
use crate::decimal::decimal_text;
use crate::host::connection::Connection;
use crate::host::connection::ConnectionView;
use crate::host::connection::LinkState;
use crate::host::connection::OpenOutcome;
use crate::host::connection::OpenOutcomeView;
use crate::host::connection::OpenRequest;
use crate::host::connection::OpenRequestView;
use crate::host::error::HostError;
use crate::host::error::HostErrorView;
use crate::host::protocol::Protocol;
use crate::host::protocol::ProtocolView;
use crate::host::protocol::TERMINATOR;
use crate::text::trimmed;
use crate::views::join3;
use vstd::prelude::*;

verus! {

/// The text that `String::from_utf8_lossy` makes of bytes: their decoding,
/// with the replacement character in place of what is no UTF-8.
pub uninterp spec fn lossy_text(bytes: Seq<u8>) -> Seq<char>;

/// Decodes bytes with `String::from_utf8_lossy`, which never fails. The
/// text is a function of the bytes alone and is named by [`lossy_text`];
/// bytes that are UTF-8 give the text that they encode.
#[verifier::external_body]
pub(crate) fn text_from_bytes(bytes: &Vec<u8>) -> (text: String)
    ensures
        text@ == lossy_text(bytes@),
        vstd::utf8::valid_utf8(bytes@) ==> text@ == vstd::utf8::decode_utf8(bytes@),
{
    String::from_utf8_lossy(bytes).into_owned()
}

/// The byte that ends an answer: line feed.
pub const LINE_FEED: u8 = 10;

/// What the holder of the socket or port does next.
#[derive(Debug)]
pub enum Step {
    /// Drop any handle held for this link, open the link anew and report
    /// how it went.
    Open(OpenRequest),
    /// Write all the bytes, flush, and report how it went.
    Write { bytes: Vec<u8>, timeout_ms: u32 },
    /// Read once and report what came.
    Read { timeout_ms: u32 },
    /// The exchange is over: the answer, or why there is none. The handle is
    /// kept or dropped as [`CommandExecutor::is_connected`] now says.
    Done(Result<String, HostError>),
}

/// The mathematical content of a [`Step`].
pub enum StepView {
    Open(OpenRequestView),
    Write { bytes: Seq<u8>, timeout_ms: u32 },
    Read { timeout_ms: u32 },
    Done(Result<Seq<char>, HostErrorView>),
}

impl View for Step {
    type V = StepView;

    open spec fn view(&self) -> StepView {
        match self {
            Step::Open(request) => StepView::Open(request@),
            Step::Write { bytes, timeout_ms } => StepView::Write {
                bytes: bytes@,
                timeout_ms: *timeout_ms,
            },
            Step::Read { timeout_ms } => StepView::Read { timeout_ms: *timeout_ms },
            Step::Done(result) => StepView::Done(
                match result {
                    Ok(text) => Ok(text@),
                    Err(e) => Err(e@),
                },
            ),
        }
    }
}

/// What came of the last step.
#[derive(Debug)]
pub enum Event {
    /// The link was opened.
    Opened,
    /// The link was not opened within its time.
    OpenTimedOut,
    /// The link could not be opened.
    OpenFailed(String),
    /// All bytes were written.
    Written,
    /// The bytes were not written within the time.
    WriteTimedOut,
    /// Writing failed.
    WriteFailed(String),
    /// These bytes were read; none, where the read returned empty-handed.
    Received(Vec<u8>),
    /// Nothing was read within the time.
    ReadTimedOut,
    /// Reading failed.
    ReadFailed(String),
    /// The time for the whole answer is over.
    DeadlineElapsed,
    /// The other side has closed the link: nothing more will come.
    Closed,
}

/// The mathematical content of an [`Event`].
pub enum EventView {
    Opened,
    OpenTimedOut,
    OpenFailed(Seq<char>),
    Written,
    WriteTimedOut,
    WriteFailed(Seq<char>),
    Received(Seq<u8>),
    ReadTimedOut,
    ReadFailed(Seq<char>),
    DeadlineElapsed,
    Closed,
}

impl View for Event {
    type V = EventView;

    open spec fn view(&self) -> EventView {
        match self {
            Event::Opened => EventView::Opened,
            Event::OpenTimedOut => EventView::OpenTimedOut,
            Event::OpenFailed(reason) => EventView::OpenFailed(reason@),
            Event::Written => EventView::Written,
            Event::WriteTimedOut => EventView::WriteTimedOut,
            Event::WriteFailed(reason) => EventView::WriteFailed(reason@),
            Event::Received(bytes) => EventView::Received(bytes@),
            Event::ReadTimedOut => EventView::ReadTimedOut,
            Event::ReadFailed(reason) => EventView::ReadFailed(reason@),
            Event::DeadlineElapsed => EventView::DeadlineElapsed,
            Event::Closed => EventView::Closed,
        }
    }
}

/// How far an exchange has come.
#[derive(Debug)]
pub enum Phase {
    /// No exchange is under way.
    Ready,
    /// The link is being opened; the command waits.
    Connecting { frame: Vec<u8> },
    /// The command is being written.
    Writing,
    /// The answer is being read; this much of it has come.
    Reading { received: Vec<u8> },
}

/// The mathematical content of a [`Phase`].
pub enum PhaseView {
    Ready,
    Connecting { frame: Seq<u8> },
    Writing,
    Reading { received: Seq<u8> },
}

impl View for Phase {
    type V = PhaseView;

    open spec fn view(&self) -> PhaseView {
        match self {
            Phase::Ready => PhaseView::Ready,
            Phase::Connecting { frame } => PhaseView::Connecting { frame: frame@ },
            Phase::Writing => PhaseView::Writing,
            Phase::Reading { received } => PhaseView::Reading { received: received@ },
        }
    }
}

/// Sends commands over one link and collects the answers.
#[derive(Debug)]
pub struct CommandExecutor {
    pub connection: Connection,
    pub protocol: Protocol,
    /// Whether every exchange opens the link anew: some devices close it
    /// after one answer.
    pub fresh_connection: bool,
    pub phase: Phase,
}

/// The mathematical content of a [`CommandExecutor`].
pub struct ExecutorView {
    pub connection: ConnectionView,
    pub protocol: ProtocolView,
    pub fresh_connection: bool,
    pub phase: PhaseView,
}

impl View for CommandExecutor {
    type V = ExecutorView;

    open spec fn view(&self) -> ExecutorView {
        ExecutorView {
            connection: self.connection@,
            protocol: self.protocol@,
            fresh_connection: self.fresh_connection,
            phase: self.phase@,
        }
    }
}

/// The bytes of a command on the wire: the command and the terminator.
pub open spec fn frame_of(command: Seq<char>) -> Seq<u8> {
    vstd::utf8::encode_utf8(command + TERMINATOR@)
}

/// The answer that the bytes read stand for: their text, trimmed.
pub open spec fn response_text(received: Seq<u8>) -> Seq<char> {
    trimmed(lossy_text(received))
}

/// The message of an exchange that is asked for while another one is under
/// way.
pub open spec fn exchange_in_progress() -> Seq<char> {
    "Exchange already in progress"@
}

/// The message of a write that timed out.
pub open spec fn write_timeout(timeout_ms: u32) -> Seq<char> {
    "Write timeout after "@ + decimal_text(timeout_ms as nat) + "ms"@
}

/// The message of an answer of which nothing came in time.
pub open spec fn no_response(timeout_ms: u32) -> Seq<char> {
    "No response from device in "@ + decimal_text(timeout_ms as nat) + " ms"@
}

/// The message of an answer of which nothing came before the time for the
/// whole answer was over.
pub open spec fn deadline_elapsed(timeout_ms: u32) -> Seq<char> {
    "Timed out waiting "@ + decimal_text(timeout_ms as nat) + " ms for response"@
}

/// The message of an event that does not belong to the phase.
pub open spec fn unexpected_event() -> Seq<char> {
    "Unexpected event for the state of the exchange"@
}

impl ExecutorView {
    /// The executor with its link in the state `link` and in the phase
    /// `phase`.
    pub open spec fn moved(self, link: LinkState, phase: PhaseView) -> ExecutorView {
        ExecutorView { connection: self.connection.with_link(link), phase, ..self }
    }

    /// The executor at rest with its link in the state `link`.
    pub open spec fn rested(self, link: LinkState) -> ExecutorView {
        self.moved(link, PhaseView::Ready)
    }

    /// The step that writes the frame.
    pub open spec fn write_step(self, frame: Seq<u8>) -> StepView {
        StepView::Write { bytes: frame, timeout_ms: self.connection.timeout_ms }
    }

    /// The step that reads.
    pub open spec fn read_step(self) -> StepView {
        StepView::Read { timeout_ms: self.connection.timeout_ms }
    }

    /// The start of an exchange of the bytes `frame`. While another
    /// exchange is under way nothing changes and the request fails. A link
    /// that is open and free is used as it is, unless every exchange opens
    /// the link anew: its handle is taken and the bytes are to be written.
    /// In every other case the handle, if there is one, is let go and the
    /// link is to be opened first.
    pub open spec fn begin_frame(self, frame: Seq<u8>) -> (ExecutorView, StepView) {
        if !(self.phase is Ready) {
            (self, StepView::Done(Err(HostErrorView::ConnectionError(exchange_in_progress()))))
        } else if !self.fresh_connection && self.connection.link == LinkState::Idle {
            (self.moved(LinkState::Busy, PhaseView::Writing), self.write_step(frame))
        } else {
            (
                self.moved(LinkState::Closed, PhaseView::Connecting { frame }),
                StepView::Open(self.connection.open_request()),
            )
        }
    }

    /// The start of an exchange of the command `command`: of its bytes
    /// with the terminator behind them.
    pub open spec fn begin(self, command: Seq<char>) -> (ExecutorView, StepView) {
        self.begin_frame(frame_of(command))
    }

    /// What an event makes of an exchange while the link is being opened.
    pub open spec fn on_connecting(self, frame: Seq<u8>, event: EventView) -> (
        ExecutorView,
        StepView,
    ) {
        match event {
            EventView::Opened => (
                self.moved(LinkState::Busy, PhaseView::Writing),
                self.write_step(frame),
            ),
            EventView::OpenTimedOut => (
                self.rested(LinkState::Closed),
                StepView::Done(Err(self.connection.open_error(OpenOutcomeView::TimedOut))),
            ),
            EventView::OpenFailed(reason) => (
                self.rested(LinkState::Closed),
                StepView::Done(Err(self.connection.open_error(OpenOutcomeView::Failed(reason)))),
            ),
            _ => self.unexpected(),
        }
    }

    /// What an event makes of an exchange while the command is being
    /// written. A write that times out leaves the handle in place; one that
    /// fails lets it go.
    pub open spec fn on_writing(self, event: EventView) -> (ExecutorView, StepView) {
        match event {
            EventView::Written => (
                self.moved(LinkState::Busy, PhaseView::Reading { received: Seq::empty() }),
                self.read_step(),
            ),
            EventView::WriteTimedOut => (
                self.rested(LinkState::Idle),
                StepView::Done(
                    Err(HostErrorView::Timeout(write_timeout(self.connection.timeout_ms))),
                ),
            ),
            EventView::WriteFailed(reason) => (
                self.rested(LinkState::Closed),
                StepView::Done(Err(HostErrorView::IoError(reason))),
            ),
            _ => self.unexpected(),
        }
    }

    /// What an event makes of an exchange while the answer is being read.
    /// The answer ends with the first line feed. A read that times out and
    /// the end of the time for the whole answer end it too, with what has
    /// come so far, or with a timeout error where nothing has come. A link
    /// that the other side has closed ends it with what has come so far.
    /// Only a read that fails lets the handle go.
    pub open spec fn on_reading(self, received: Seq<u8>, event: EventView) -> (
        ExecutorView,
        StepView,
    ) {
        match event {
            EventView::Received(bytes) => {
                let all = received + bytes;
                if all.contains(LINE_FEED) {
                    (self.rested(LinkState::Idle), StepView::Done(Ok(response_text(all))))
                } else {
                    (
                        self.moved(LinkState::Busy, PhaseView::Reading { received: all }),
                        self.read_step(),
                    )
                }
            },
            EventView::ReadTimedOut => (
                self.rested(LinkState::Idle),
                if received.len() > 0 {
                    StepView::Done(Ok(response_text(received)))
                } else {
                    StepView::Done(
                        Err(HostErrorView::Timeout(no_response(self.connection.timeout_ms))),
                    )
                },
            ),
            EventView::ReadFailed(reason) => (
                self.rested(LinkState::Closed),
                StepView::Done(Err(HostErrorView::IoError(reason))),
            ),
            EventView::DeadlineElapsed => (
                self.rested(LinkState::Idle),
                if received.len() > 0 {
                    StepView::Done(Ok(response_text(received)))
                } else {
                    StepView::Done(
                        Err(HostErrorView::Timeout(deadline_elapsed(self.connection.timeout_ms))),
                    )
                },
            ),
            EventView::Closed => (
                self.rested(LinkState::Idle),
                StepView::Done(Ok(response_text(received))),
            ),
            _ => self.unexpected(),
        }
    }

    /// An event that does not belong to the phase changes nothing and is
    /// answered with an error.
    pub open spec fn unexpected(self) -> (ExecutorView, StepView) {
        (self, StepView::Done(Err(HostErrorView::ProtocolError(unexpected_event()))))
    }

    /// What an event makes of an exchange.
    pub open spec fn advance(self, event: EventView) -> (ExecutorView, StepView) {
        match self.phase {
            PhaseView::Ready => self.unexpected(),
            PhaseView::Connecting { frame } => self.on_connecting(frame, event),
            PhaseView::Writing => self.on_writing(event),
            PhaseView::Reading { received } => self.on_reading(received, event),
        }
    }
}

/// What the passing of time means for an answer that is being read: once
/// the time that has passed since the first read was asked for has reached
/// the time allowed, the time for the whole answer is over; before that
/// there is nothing to report and the next read is due.
pub open spec fn time_event(elapsed_ms: u64, timeout_ms: u32) -> Option<EventView> {
    if elapsed_ms >= timeout_ms {
        Some(EventView::DeadlineElapsed)
    } else {
        None
    }
}

/// Says whether the time for the whole answer is over, given the
/// milliseconds that have passed and the milliseconds allowed.
pub fn deadline_event(elapsed_ms: u64, timeout_ms: u32) -> (r: Option<Event>)
    ensures
        match time_event(elapsed_ms, timeout_ms) {
            Some(event) => r matches Some(e) && e@ == event,
            None => r is None,
        },
{
    if elapsed_ms >= timeout_ms as u64 {
        Some(Event::DeadlineElapsed)
    } else {
        None
    }
}

/// Whether a line feed is among the bytes.
pub fn has_line_feed(bytes: &Vec<u8>) -> (b: bool)
    ensures
        b == bytes@.contains(LINE_FEED),
{
    let mut i: usize = 0;
    while i < bytes.len()
        invariant
            i <= bytes.len(),
            forall|k: int| 0 <= k < i ==> bytes@[k] != LINE_FEED,
        decreases bytes.len() - i,
    {
        if bytes[i] == LINE_FEED {
            return true;
        }
        i += 1;
    }
    false
}

/// Appends `more` to `bytes`.
pub fn append_bytes(bytes: &mut Vec<u8>, more: &Vec<u8>)
    ensures
        final(bytes)@ == old(bytes)@ + more@,
{
    let mut i: usize = 0;
    assert(bytes@ =~= old(bytes)@ + more@.take(0));
    while i < more.len()
        invariant
            i <= more.len(),
            bytes@ == old(bytes)@ + more@.take(i as int),
        decreases more.len() - i,
    {
        bytes.push(more[i]);
        assert(more@.take(i as int + 1) =~= more@.take(i as int).push(more@[i as int]));
        i += 1;
    }
    assert(more@.take(more.len() as int) =~= more@);
}

/// The answer that the bytes read stand for. Bytes that are UTF-8 give the
/// text that they encode, trimmed.
pub fn response_from(received: &Vec<u8>) -> (text: String)
    ensures
        text@ == response_text(received@),
        vstd::utf8::valid_utf8(received@) ==> text@ == trimmed(
            vstd::utf8::decode_utf8(received@),
        ),
{
    let raw = text_from_bytes(received);
    let chars = crate::text::trimmed_chars(raw.as_str());
    crate::text::string_of(&chars)
}

/// The bytes of a command on the wire.
pub fn frame(command: &str) -> (bytes: Vec<u8>)
    ensures
        bytes@ == frame_of(command@),
{
    let framed = crate::views::join(command, TERMINATOR);
    framed.as_str().as_bytes_vec()
}

impl CommandExecutor {
    /// An executor on `connection` for the dialect `protocol`. Over TCP
    /// every exchange opens the link anew; a serial port is kept open from
    /// one exchange to the next.
    pub fn new(connection: Connection, protocol: Protocol) -> (executor: CommandExecutor)
        ensures
            executor@ == (ExecutorView {
                connection: connection@,
                protocol: protocol@,
                fresh_connection: connection@.connection_type is Tcp,
                phase: PhaseView::Ready,
            }),
    {
        let fresh_connection = match &connection.connection_type {
            crate::host::connection::ConnectionType::Tcp { .. } => true,
            crate::host::connection::ConnectionType::Serial { .. } => false,
        };
        CommandExecutor { connection, protocol, fresh_connection, phase: Phase::Ready }
    }

    /// An executor that keeps its link open from one exchange to the next,
    /// whatever the kind of the link.
    pub fn pooled(connection: Connection, protocol: Protocol) -> (executor: CommandExecutor)
        ensures
            executor@ == (ExecutorView {
                connection: connection@,
                protocol: protocol@,
                fresh_connection: false,
                phase: PhaseView::Ready,
            }),
    {
        CommandExecutor { connection, protocol, fresh_connection: false, phase: Phase::Ready }
    }

    /// Whether the link is open and free.
    pub fn is_connected(&self) -> (b: bool)
        ensures
            b == self@.connection.is_connected(),
    {
        self.connection.is_connected()
    }

    /// Whether an exchange is under way.
    pub fn is_busy(&self) -> (b: bool)
        ensures
            b == !(self@.phase is Ready),
    {
        match &self.phase {
            Phase::Ready => false,
            _ => true,
        }
    }

    fn timeout_error(&self, before: &str, after: &str) -> (e: HostError)
        ensures
            e@ == HostErrorView::Timeout(
                before@ + decimal_text(self.connection.timeout_ms as nat) + after@,
            ),
    {
        let digits = decimal_string(self.connection.timeout_ms as u64);
        HostError::Timeout(join3(before, digits.as_str(), after))
    }

    fn unexpected(&self) -> (step: Step)
        ensures
            (self@, step@) == self@.unexpected(),
    {
        Step::Done(
            Err(HostError::ProtocolError("Unexpected event for the state of the exchange".to_string())),
        )
    }

    /// Starts the exchange of the bytes `frame` and says what to do first.
    pub fn execute_frame(&mut self, frame: Vec<u8>) -> (step: Step)
        ensures
            (final(self)@, step@) == old(self)@.begin_frame(frame@),
    {
        if self.is_busy() {
            return Step::Done(
                Err(HostError::ConnectionError("Exchange already in progress".to_string())),
            );
        }
        if !self.fresh_connection && self.connection.link == LinkState::Idle {
            self.connection.link = LinkState::Busy;
            self.phase = Phase::Writing;
            Step::Write { bytes: frame, timeout_ms: self.connection.timeout_ms }
        } else {
            let request = self.connection.open_request();
            self.connection.link = LinkState::Closed;
            self.phase = Phase::Connecting { frame };
            Step::Open(request)
        }
    }

    /// Starts the exchange of `command` and says what to do first.
    pub fn execute(&mut self, command: &str) -> (step: Step)
        ensures
            (final(self)@, step@) == old(self)@.begin(command@),
    {
        self.execute_frame(frame(command))
    }

    /// Takes what came of the last step and says what to do next.
    pub fn advance(&mut self, event: Event) -> (step: Step)
        ensures
            (final(self)@, step@) == old(self)@.advance(event@),
    {
        let mut phase = Phase::Ready;
        std::mem::swap(&mut phase, &mut self.phase);
        match phase {
            Phase::Ready => self.unexpected(),
            Phase::Connecting { frame } => match event {
                Event::Opened => {
                    self.connection.link = LinkState::Busy;
                    self.phase = Phase::Writing;
                    Step::Write { bytes: frame, timeout_ms: self.connection.timeout_ms }
                },
                Event::OpenTimedOut => {
                    let e = self.connection.open_error(&OpenOutcome::TimedOut);
                    self.connection.link = LinkState::Closed;
                    Step::Done(Err(e))
                },
                Event::OpenFailed(reason) => {
                    let e = self.connection.open_error(&OpenOutcome::Failed(reason));
                    self.connection.link = LinkState::Closed;
                    Step::Done(Err(e))
                },
                _ => {
                    self.phase = Phase::Connecting { frame };
                    self.unexpected()
                },
            },
            Phase::Writing => match event {
                Event::Written => {
                    self.connection.link = LinkState::Busy;
                    self.phase = Phase::Reading { received: Vec::new() };
                    Step::Read { timeout_ms: self.connection.timeout_ms }
                },
                Event::WriteTimedOut => {
                    let e = self.timeout_error("Write timeout after ", "ms");
                    self.connection.link = LinkState::Idle;
                    Step::Done(Err(e))
                },
                Event::WriteFailed(reason) => {
                    self.connection.link = LinkState::Closed;
                    Step::Done(Err(HostError::IoError(reason)))
                },
                _ => {
                    self.phase = Phase::Writing;
                    self.unexpected()
                },
            },
            Phase::Reading { received } => match event {
                Event::Received(bytes) => {
                    let mut all = received;
                    append_bytes(&mut all, &bytes);
                    if has_line_feed(&all) {
                        self.connection.link = LinkState::Idle;
                        Step::Done(Ok(response_from(&all)))
                    } else {
                        self.connection.link = LinkState::Busy;
                        self.phase = Phase::Reading { received: all };
                        Step::Read { timeout_ms: self.connection.timeout_ms }
                    }
                },
                Event::ReadTimedOut => {
                    self.connection.link = LinkState::Idle;
                    if received.len() > 0 {
                        Step::Done(Ok(response_from(&received)))
                    } else {
                        Step::Done(Err(self.timeout_error("No response from device in ", " ms")))
                    }
                },
                Event::ReadFailed(reason) => {
                    self.connection.link = LinkState::Closed;
                    Step::Done(Err(HostError::IoError(reason)))
                },
                Event::DeadlineElapsed => {
                    self.connection.link = LinkState::Idle;
                    if received.len() > 0 {
                        Step::Done(Ok(response_from(&received)))
                    } else {
                        Step::Done(
                            Err(self.timeout_error("Timed out waiting ", " ms for response")),
                        )
                    }
                },
                Event::Closed => {
                    self.connection.link = LinkState::Idle;
                    Step::Done(Ok(response_from(&received)))
                },
                _ => {
                    self.phase = Phase::Reading { received };
                    self.unexpected()
                },
            },
        }
    }

    /// A copy of the executor.
    pub fn copy(&self) -> (executor: CommandExecutor)
        ensures
            executor@ == self@,
    {
        let phase = match &self.phase {
            Phase::Ready => Phase::Ready,
            Phase::Connecting { frame } => {
                let mut copy: Vec<u8> = Vec::new();
                append_bytes(&mut copy, frame);
                assert(copy@ =~= frame@);
                Phase::Connecting { frame: copy }
            },
            Phase::Writing => Phase::Writing,
            Phase::Reading { received } => {
                let mut copy: Vec<u8> = Vec::new();
                append_bytes(&mut copy, received);
                assert(copy@ =~= received@);
                Phase::Reading { received: copy }
            },
        };
        CommandExecutor {
            connection: self.connection.copy(),
            protocol: self.protocol.copy(),
            fresh_connection: self.fresh_connection,
            phase,
        }
    }
}

/// Only an error of input or output costs the handle. After a write or a
/// read that failed the link is closed; after one that timed out, and after
/// an answer, the handle is back in its place.
pub proof fn lemma_handle_after_event(executor: ExecutorView, event: EventView)
    ensures
        (executor.phase is Writing && event is WriteFailed) || (executor.phase is Reading
            && event is ReadFailed) ==> executor.advance(event).0.connection.link
            == LinkState::Closed,
        (executor.phase is Writing && event is WriteTimedOut) || (executor.phase is Reading && (
        event is ReadTimedOut || event is DeadlineElapsed || event is Closed)) ==> executor.advance(
            event,
        ).0.connection.link == LinkState::Idle,
        executor.advance(event).1 matches StepView::Done(Ok(_)) ==> executor.advance(
            event,
        ).0.connection.link == LinkState::Idle,
{
}

/// An exchange that has ended leaves the executor at rest, and one that has
/// not ended holds the handle or waits for the link.
pub proof fn lemma_phase_after_event(executor: ExecutorView, event: EventView)
    requires
        !(executor.phase is Ready),
    ensures
        executor.advance(event).1 is Done ==> executor.advance(event).0.phase is Ready || (
        executor.advance(event).0 == executor),
        !(executor.advance(event).1 is Done) ==> !(executor.advance(event).0.phase is Ready),
{
}

/// When the time is over, be it the time of one read or of the whole
/// answer, what has come so far is the answer, and there is a timeout error
/// only where nothing has come.
pub proof fn lemma_partial_answer(executor: ExecutorView, received: Seq<u8>)
    requires
        executor.phase == (PhaseView::Reading { received }),
    ensures
        received.len() > 0 ==> executor.advance(EventView::ReadTimedOut).1 == StepView::Done(
            Ok(response_text(received)),
        ),
        received.len() > 0 ==> executor.advance(EventView::DeadlineElapsed).1 == StepView::Done(
            Ok(response_text(received)),
        ),
        received.len() == 0 ==> executor.advance(EventView::ReadTimedOut).1 == StepView::Done(
            Err(HostErrorView::Timeout(no_response(executor.connection.timeout_ms))),
        ),
        received.len() == 0 ==> executor.advance(EventView::DeadlineElapsed).1 == StepView::Done(
            Err(HostErrorView::Timeout(deadline_elapsed(executor.connection.timeout_ms))),
        ),
{
}

/// An exchange ends with a timeout error only where no byte of the answer
/// has come: whatever the event, a timeout while the answer is being read
/// means that nothing was received.
pub proof fn lemma_timeout_means_nothing_read(
    executor: ExecutorView,
    received: Seq<u8>,
    event: EventView,
)
    requires
        executor.phase == (PhaseView::Reading { received }),
        executor.advance(event).1 matches StepView::Done(Err(HostErrorView::Timeout(_))),
    ensures
        received.len() == 0,
{
}

/// While an exchange is under way a second one is refused and changes
/// nothing.
pub proof fn lemma_one_exchange_at_a_time(executor: ExecutorView, command: Seq<char>)
    requires
        !(executor.phase is Ready),
    ensures
        executor.begin(command) == (
            executor,
            StepView::Done(Err(HostErrorView::ConnectionError(exchange_in_progress()))),
        ),
{
}

} // verus!
