//! Links: the settings of a TCP or serial connection and whether it is open.
//!
//! The socket or port itself is held by whoever performs the input and
//! output. A [`Connection`] records what that party is to open and what has
//! become of it: it says what to do next and is told how it went.

use crate::decimal::decimal_string;
use crate::decimal::decimal_text;
use crate::host::error::HostError;
use crate::host::error::HostErrorView;
use crate::models::device::FlowControl;
use crate::models::device::Parity;
use crate::models::device::StopBits;
use crate::views::join;
use crate::views::join3;
use crate::views::result_view;
use vstd::prelude::*;

verus! {

/// What has become of the handle of a link.
#[derive(Debug, Clone, Copy, PartialEq, Eq, Structural)]
pub enum LinkState {
    /// No handle is held.
    Closed,
    /// A handle is held and free for the next exchange.
    Idle,
    /// The handle is taken out for an exchange that has not ended.
    Busy,
}

/// The number of data bits of a serial line.
#[derive(Debug, Clone, Copy, PartialEq, Eq, Structural)]
pub enum DataBits {
    Five,
    Six,
    Seven,
    Eight,
}

/// The kind of a link and where it leads.
#[derive(Debug)]
pub enum ConnectionType {
    Tcp { host: String, port: u16 },
    Serial {
        port_path: String,
        baud_rate: u32,
        data_bits: u8,
        stop_bits: StopBits,
        parity: Parity,
        flow_control: FlowControl,
    },
}

/// The mathematical content of a [`ConnectionType`].
pub enum ConnectionTypeView {
    Tcp { host: Seq<char>, port: u16 },
    Serial {
        port_path: Seq<char>,
        baud_rate: u32,
        data_bits: u8,
        stop_bits: StopBits,
        parity: Parity,
        flow_control: FlowControl,
    },
}

impl View for ConnectionType {
    type V = ConnectionTypeView;

    open spec fn view(&self) -> ConnectionTypeView {
        match self {
            ConnectionType::Tcp { host, port } => ConnectionTypeView::Tcp {
                host: host@,
                port: *port,
            },
            ConnectionType::Serial {
                port_path,
                baud_rate,
                data_bits,
                stop_bits,
                parity,
                flow_control,
            } => ConnectionTypeView::Serial {
                port_path: port_path@,
                baud_rate: *baud_rate,
                data_bits: *data_bits,
                stop_bits: *stop_bits,
                parity: *parity,
                flow_control: *flow_control,
            },
        }
    }
}

/// A link: where it leads, how long it waits, and the state of its handle.
#[derive(Debug)]
pub struct Connection {
    pub connection_type: ConnectionType,
    pub timeout_ms: u32,
    pub link: LinkState,
}

/// The mathematical content of a [`Connection`].
pub struct ConnectionView {
    pub connection_type: ConnectionTypeView,
    pub timeout_ms: u32,
    pub link: LinkState,
}

impl View for Connection {
    type V = ConnectionView;

    open spec fn view(&self) -> ConnectionView {
        ConnectionView {
            connection_type: self.connection_type@,
            timeout_ms: self.timeout_ms,
            link: self.link,
        }
    }
}

/// The settings of a TCP link.
#[derive(Debug)]
pub struct TcpConnection {
    pub host: String,
    pub port: u16,
    pub timeout_ms: u32,
}

/// The settings of a serial link.
#[derive(Debug)]
pub struct SerialConnection {
    pub port: String,
    pub baud_rate: u32,
    pub data_bits: u8,
    pub stop_bits: StopBits,
    pub parity: Parity,
    pub flow_control: FlowControl,
    pub timeout_ms: u32,
}

/// What is to be opened. A TCP socket is opened with `no_delay` set, so
/// that short commands leave at once.
#[derive(Debug)]
pub enum OpenRequest {
    Tcp { address: String, timeout_ms: u32, no_delay: bool },
    Serial {
        port: String,
        baud_rate: u32,
        data_bits: DataBits,
        stop_bits: StopBits,
        parity: Parity,
        flow_control: FlowControl,
        timeout_ms: u32,
    },
}

/// The mathematical content of an [`OpenRequest`].
pub enum OpenRequestView {
    Tcp { address: Seq<char>, timeout_ms: u32, no_delay: bool },
    Serial {
        port: Seq<char>,
        baud_rate: u32,
        data_bits: DataBits,
        stop_bits: StopBits,
        parity: Parity,
        flow_control: FlowControl,
        timeout_ms: u32,
    },
}

impl View for OpenRequest {
    type V = OpenRequestView;

    open spec fn view(&self) -> OpenRequestView {
        match self {
            OpenRequest::Tcp { address, timeout_ms, no_delay } => OpenRequestView::Tcp {
                address: address@,
                timeout_ms: *timeout_ms,
                no_delay: *no_delay,
            },
            OpenRequest::Serial {
                port,
                baud_rate,
                data_bits,
                stop_bits,
                parity,
                flow_control,
                timeout_ms,
            } => OpenRequestView::Serial {
                port: port@,
                baud_rate: *baud_rate,
                data_bits: *data_bits,
                stop_bits: *stop_bits,
                parity: *parity,
                flow_control: *flow_control,
                timeout_ms: *timeout_ms,
            },
        }
    }
}

/// What a request to connect asks of the caller.
#[derive(Debug)]
pub enum ConnectStep {
    /// The link is open already; nothing is to be done.
    AlreadyConnected,
    /// The link is to be opened, and its outcome reported.
    Open(OpenRequest),
}

/// The mathematical content of a [`ConnectStep`].
pub enum ConnectStepView {
    AlreadyConnected,
    Open(OpenRequestView),
}

impl View for ConnectStep {
    type V = ConnectStepView;

    open spec fn view(&self) -> ConnectStepView {
        match self {
            ConnectStep::AlreadyConnected => ConnectStepView::AlreadyConnected,
            ConnectStep::Open(request) => ConnectStepView::Open(request@),
        }
    }
}

/// How an attempt to open a link went.
#[derive(Debug)]
pub enum OpenOutcome {
    Opened,
    TimedOut,
    Failed(String),
}

/// The mathematical content of an [`OpenOutcome`].
pub enum OpenOutcomeView {
    Opened,
    TimedOut,
    Failed(Seq<char>),
}

impl View for OpenOutcome {
    type V = OpenOutcomeView;

    open spec fn view(&self) -> OpenOutcomeView {
        match self {
            OpenOutcome::Opened => OpenOutcomeView::Opened,
            OpenOutcome::TimedOut => OpenOutcomeView::TimedOut,
            OpenOutcome::Failed(reason) => OpenOutcomeView::Failed(reason@),
        }
    }
}

/// The data bits that a number of bits stands for; eight for every number
/// that is none of five, six and seven.
pub open spec fn data_bits_of(bits: u8) -> DataBits {
    if bits == 5 {
        DataBits::Five
    } else if bits == 6 {
        DataBits::Six
    } else if bits == 7 {
        DataBits::Seven
    } else {
        DataBits::Eight
    }
}

/// Whether a number of data bits is one that a serial line can have.
pub open spec fn valid_data_bits(bits: u8) -> bool {
    5 <= bits <= 8
}

/// The message of a connection that timed out.
pub open spec fn connect_timeout(timeout_ms: u32) -> Seq<char> {
    "Connection timeout after "@ + decimal_text(timeout_ms as nat) + "ms"@
}

impl ConnectionTypeView {
    /// The address of a TCP link: host, colon, port.
    pub open spec fn address(self) -> Seq<char>
        recommends
            self is Tcp,
    {
        self->host + ":"@ + decimal_text(self->Tcp_port as nat)
    }

    /// The message of a link that could not be opened for the reason
    /// `reason`.
    pub open spec fn open_failure(self, reason: Seq<char>) -> Seq<char> {
        match self {
            ConnectionTypeView::Tcp { .. } => "Failed to connect: "@ + reason,
            ConnectionTypeView::Serial { port_path, .. } => "Unable to open serial port "@
                + port_path + ": "@ + reason,
        }
    }
}

impl ConnectionView {
    /// Whether a handle is held and free.
    pub open spec fn is_connected(self) -> bool {
        self.link == LinkState::Idle
    }

    /// The link with its handle in the state `link`.
    pub open spec fn with_link(self, link: LinkState) -> ConnectionView {
        ConnectionView { link, ..self }
    }

    /// What is to be opened for this link.
    pub open spec fn open_request(self) -> OpenRequestView {
        match self.connection_type {
            ConnectionTypeView::Tcp { .. } => OpenRequestView::Tcp {
                address: self.connection_type.address(),
                timeout_ms: self.timeout_ms,
                no_delay: true,
            },
            ConnectionTypeView::Serial {
                port_path,
                baud_rate,
                data_bits,
                stop_bits,
                parity,
                flow_control,
            } => OpenRequestView::Serial {
                port: port_path,
                baud_rate,
                data_bits: data_bits_of(data_bits),
                stop_bits,
                parity,
                flow_control,
                timeout_ms: self.timeout_ms,
            },
        }
    }

    /// What a request to connect asks for: nothing where the link is open,
    /// else to open it.
    pub open spec fn connect_step(self) -> ConnectStepView {
        if self.is_connected() {
            ConnectStepView::AlreadyConnected
        } else {
            ConnectStepView::Open(self.open_request())
        }
    }

    /// What a request to connect over TCP asks for; an error on a serial
    /// link.
    pub open spec fn connect_tcp(self) -> Result<ConnectStepView, HostErrorView> {
        if self.connection_type is Tcp {
            Ok(self.connect_step())
        } else {
            Err(HostErrorView::ConnectionError("Cannot use connect_tcp on Serial connection"@))
        }
    }

    /// What a request to connect over a serial line asks for; an error on a
    /// TCP link.
    pub open spec fn connect_serial(self) -> Result<ConnectStepView, HostErrorView> {
        if self.connection_type is Serial {
            Ok(self.connect_step())
        } else {
            Err(HostErrorView::ConnectionError("Cannot use connect_serial on TCP connection"@))
        }
    }

    /// What a request to connect asks for, whatever the kind of the link.
    pub open spec fn connect(self) -> ConnectStepView {
        self.connect_step()
    }

    /// The error of an attempt to open the link that did not succeed.
    pub open spec fn open_error(self, outcome: OpenOutcomeView) -> HostErrorView
        recommends
            !(outcome is Opened),
    {
        match outcome {
            OpenOutcomeView::Failed(reason) => HostErrorView::ConnectionError(
                self.connection_type.open_failure(reason),
            ),
            _ => HostErrorView::Timeout(connect_timeout(self.timeout_ms)),
        }
    }

    /// The link after an attempt to open it: open and free where the
    /// attempt succeeded, unchanged where it did not.
    pub open spec fn opened(self, outcome: OpenOutcomeView) -> ConnectionView {
        if outcome is Opened {
            self.with_link(LinkState::Idle)
        } else {
            self
        }
    }

    /// What an attempt to open the link is reported as.
    pub open spec fn open_result(self, outcome: OpenOutcomeView) -> Result<(), HostErrorView> {
        if outcome is Opened {
            Ok(())
        } else {
            Err(self.open_error(outcome))
        }
    }
}

/// The data bits that a number of bits stands for.
pub fn data_bits_from(bits: u8) -> (r: DataBits)
    ensures
        r == data_bits_of(bits),
{
    if bits == 5 {
        DataBits::Five
    } else if bits == 6 {
        DataBits::Six
    } else if bits == 7 {
        DataBits::Seven
    } else {
        DataBits::Eight
    }
}

/// What the result of a request to connect holds, with each side replaced
/// by its view.
pub open spec fn step_view(r: Result<ConnectStep, HostError>) -> Result<
    ConnectStepView,
    HostErrorView,
> {
    result_view(r)
}

/// What the result of a report holds, with the error replaced by its view.
pub open spec fn unit_view(r: Result<(), HostError>) -> Result<(), HostErrorView> {
    match r {
        Ok(_) => Ok(()),
        Err(e) => Err(e@),
    }
}

impl Connection {
    /// A TCP link that is not open.
    pub fn tcp(host: String, port: u16, timeout_ms: u32) -> (c: Connection)
        ensures
            c@ == (ConnectionView {
                connection_type: ConnectionTypeView::Tcp { host: host@, port },
                timeout_ms,
                link: LinkState::Closed,
            }),
    {
        Connection {
            connection_type: ConnectionType::Tcp { host, port },
            timeout_ms,
            link: LinkState::Closed,
        }
    }

    /// A serial link that is not open.
    pub fn serial(
        port: String,
        baud_rate: u32,
        data_bits: u8,
        stop_bits: StopBits,
        parity: Parity,
        flow_control: FlowControl,
        timeout_ms: u32,
    ) -> (c: Connection)
        ensures
            c@ == (ConnectionView {
                connection_type: ConnectionTypeView::Serial {
                    port_path: port@,
                    baud_rate,
                    data_bits,
                    stop_bits,
                    parity,
                    flow_control,
                },
                timeout_ms,
                link: LinkState::Closed,
            }),
    {
        Connection {
            connection_type: ConnectionType::Serial {
                port_path: port,
                baud_rate,
                data_bits,
                stop_bits,
                parity,
                flow_control,
            },
            timeout_ms,
            link: LinkState::Closed,
        }
    }

    /// Whether a handle is held and free.
    pub fn is_connected(&self) -> (b: bool)
        ensures
            b == self@.is_connected(),
    {
        self.link == LinkState::Idle
    }

    /// The address of a TCP link.
    pub fn address(&self) -> (a: String)
        requires
            self.connection_type is Tcp,
        ensures
            a@ == self@.connection_type.address(),
    {
        match &self.connection_type {
            ConnectionType::Tcp { host, port } => {
                let digits = decimal_string(*port as u64);
                join3(host.as_str(), ":", digits.as_str())
            },
            ConnectionType::Serial { .. } => String::new(),
        }
    }

    /// What is to be opened for this link.
    pub fn open_request(&self) -> (r: OpenRequest)
        ensures
            r@ == self@.open_request(),
    {
        match &self.connection_type {
            ConnectionType::Tcp { .. } => OpenRequest::Tcp {
                address: self.address(),
                timeout_ms: self.timeout_ms,
                no_delay: true,
            },
            ConnectionType::Serial {
                port_path,
                baud_rate,
                data_bits,
                stop_bits,
                parity,
                flow_control,
            } => OpenRequest::Serial {
                port: port_path.clone(),
                baud_rate: *baud_rate,
                data_bits: data_bits_from(*data_bits),
                stop_bits: *stop_bits,
                parity: *parity,
                flow_control: *flow_control,
                timeout_ms: self.timeout_ms,
            },
        }
    }

    /// What a request to connect asks for, whatever the kind of the link:
    /// nothing where it is open, else to open it and to report the outcome
    /// to [`Connection::finish_connect`].
    pub fn connect(&self) -> (step: ConnectStep)
        ensures
            step@ == self@.connect(),
    {
        if self.is_connected() {
            ConnectStep::AlreadyConnected
        } else {
            ConnectStep::Open(self.open_request())
        }
    }

    /// What a request to connect over TCP asks for.
    pub fn connect_tcp(&self) -> (r: Result<ConnectStep, HostError>)
        ensures
            step_view(r) == self@.connect_tcp(),
    {
        match &self.connection_type {
            ConnectionType::Tcp { .. } => Ok(self.connect()),
            ConnectionType::Serial { .. } => Err(
                HostError::ConnectionError(
                    "Cannot use connect_tcp on Serial connection".to_string(),
                ),
            ),
        }
    }

    /// What a request to connect over a serial line asks for.
    pub fn connect_serial(&self) -> (r: Result<ConnectStep, HostError>)
        ensures
            step_view(r) == self@.connect_serial(),
    {
        match &self.connection_type {
            ConnectionType::Serial { .. } => Ok(self.connect()),
            ConnectionType::Tcp { .. } => Err(
                HostError::ConnectionError(
                    "Cannot use connect_serial on TCP connection".to_string(),
                ),
            ),
        }
    }

    /// The error of an attempt to open the link that did not succeed.
    pub fn open_error(&self, outcome: &OpenOutcome) -> (e: HostError)
        requires
            !(outcome is Opened),
        ensures
            e@ == self@.open_error(outcome@),
    {
        match outcome {
            OpenOutcome::Failed(reason) => match &self.connection_type {
                ConnectionType::Tcp { .. } => HostError::ConnectionError(
                    join("Failed to connect: ", reason.as_str()),
                ),
                ConnectionType::Serial { port_path, .. } => {
                    let mut message = join3("Unable to open serial port ", port_path.as_str(), ": ");
                    message.append(reason.as_str());
                    HostError::ConnectionError(message)
                },
            },
            _ => {
                let digits = decimal_string(self.timeout_ms as u64);
                HostError::Timeout(join3("Connection timeout after ", digits.as_str(), "ms"))
            },
        }
    }

    /// Takes the outcome of an attempt to open the link. A link that was
    /// opened holds its handle from now on; a failure leaves the link as it
    /// was and is returned as an error.
    pub fn finish_connect(&mut self, outcome: OpenOutcome) -> (r: Result<(), HostError>)
        ensures
            final(self)@ == old(self)@.opened(outcome@),
            unit_view(r) == old(self)@.open_result(outcome@),
    {
        match outcome {
            OpenOutcome::Opened => {
                self.link = LinkState::Idle;
                Ok(())
            },
            _ => Err(self.open_error(&outcome)),
        }
    }

    /// Lets go of the handle. It never fails, and a link that is not open
    /// stays as it is.
    pub fn disconnect(&mut self) -> (r: Result<(), HostError>)
        ensures
            final(self)@ == old(self)@.with_link(LinkState::Closed),
            r is Ok,
    {
        self.link = LinkState::Closed;
        Ok(())
    }

    /// A copy of the link.
    pub fn copy(&self) -> (c: Connection)
        ensures
            c@ == self@,
    {
        let connection_type = match &self.connection_type {
            ConnectionType::Tcp { host, port } => ConnectionType::Tcp {
                host: host.clone(),
                port: *port,
            },
            ConnectionType::Serial {
                port_path,
                baud_rate,
                data_bits,
                stop_bits,
                parity,
                flow_control,
            } => ConnectionType::Serial {
                port_path: port_path.clone(),
                baud_rate: *baud_rate,
                data_bits: *data_bits,
                stop_bits: *stop_bits,
                parity: *parity,
                flow_control: *flow_control,
            },
        };
        Connection { connection_type, timeout_ms: self.timeout_ms, link: self.link }
    }
}

/// To connect a link that is open asks for nothing, and to disconnect a
/// link that is closed leaves it closed.
pub proof fn lemma_connect_disconnect_idempotent(connection: ConnectionView)
    ensures
        connection.is_connected() ==> connection.connect() == ConnectStepView::AlreadyConnected,
        connection.opened(OpenOutcomeView::Opened).connect() == ConnectStepView::AlreadyConnected,
        connection.with_link(LinkState::Closed).with_link(LinkState::Closed)
            == connection.with_link(LinkState::Closed),
        !connection.with_link(LinkState::Closed).is_connected(),
{
}

} // verus!
