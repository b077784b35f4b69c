//! Probing a host: what the probe found, and how that is reported.

use crate::decimal::decimal_string;
use crate::decimal::decimal_text;
use crate::error::BridgeError;
use crate::error::BridgeErrorView;
use crate::migration::ProbeRequest;
use crate::migration::ProbeRequestView;
use crate::text::spells;
use crate::views::join;
use crate::views::join3;
use crate::views::result_view;
use vstd::prelude::*;

verus! {

/// What a probe found.
#[derive(Debug)]
pub enum ProbeOutcome {
    /// The TCP connection was opened.
    TcpConnected,
    /// The TCP connection could not be opened.
    TcpFailed(String),
    /// The TCP connection was not opened within the time.
    TcpTimedOut,
    /// The serial ports of the machine could not be listed.
    PortsUnknown(String),
    /// The serial port is not among those of the machine, which are these.
    PortMissing(Vec<String>),
    /// The serial port was opened.
    PortOpened,
    /// The serial port exists but could not be opened.
    PortRefused(String),
}

/// The mathematical content of a [`ProbeOutcome`].
pub enum ProbeOutcomeView {
    TcpConnected,
    TcpFailed(Seq<char>),
    TcpTimedOut,
    PortsUnknown(Seq<char>),
    PortMissing(Seq<Seq<char>>),
    PortOpened,
    PortRefused(Seq<char>),
}

impl View for ProbeOutcome {
    type V = ProbeOutcomeView;

    open spec fn view(&self) -> ProbeOutcomeView {
        match self {
            ProbeOutcome::TcpConnected => ProbeOutcomeView::TcpConnected,
            ProbeOutcome::TcpFailed(reason) => ProbeOutcomeView::TcpFailed(reason@),
            ProbeOutcome::TcpTimedOut => ProbeOutcomeView::TcpTimedOut,
            ProbeOutcome::PortsUnknown(reason) => ProbeOutcomeView::PortsUnknown(reason@),
            ProbeOutcome::PortMissing(ports) => ProbeOutcomeView::PortMissing(
                crate::device_manager::texts(ports@),
            ),
            ProbeOutcome::PortOpened => ProbeOutcomeView::PortOpened,
            ProbeOutcome::PortRefused(reason) => ProbeOutcomeView::PortRefused(reason@),
        }
    }
}

/// The texts of `list` with a comma and a space between them.
pub open spec fn listed_with_commas(list: Seq<Seq<char>>) -> Seq<char>
    decreases list.len(),
{
    if list.len() == 0 {
        Seq::empty()
    } else if list.len() == 1 {
        list[0]
    } else {
        listed_with_commas(list.drop_last()) + ", "@ + list.last()
    }
}

/// The ports of the machine as a report names them: `none` where there are
/// none.
pub open spec fn available_ports(ports: Seq<Seq<char>>) -> Seq<char> {
    if ports.len() == 0 {
        "none"@
    } else {
        listed_with_commas(ports)
    }
}

/// The address of the link that a probe is about.
pub open spec fn probed(request: ProbeRequestView) -> Seq<char> {
    match request {
        ProbeRequestView::Tcp { host, port, .. } => host + ":"@ + decimal_text(port as nat),
        ProbeRequestView::Serial { port } => port,
    }
}

/// The time that the probe of a TCP link waits; zero for a serial port.
pub open spec fn probe_timeout(request: ProbeRequestView) -> u32 {
    match request {
        ProbeRequestView::Tcp { timeout_ms, .. } => timeout_ms,
        ProbeRequestView::Serial { .. } => 0,
    }
}

/// How a probe is reported: a link that was opened is a success with a
/// message, a timeout is a timeout, and everything else is a connection
/// error that says what went wrong.
pub open spec fn probe_report(request: ProbeRequestView, outcome: ProbeOutcomeView) -> Result<
    Seq<char>,
    BridgeErrorView,
> {
    let link = probed(request);
    match outcome {
        ProbeOutcomeView::TcpConnected => Ok("TCP connection successful to "@ + link),
        ProbeOutcomeView::TcpFailed(reason) => Err(
            BridgeErrorView::ConnectionError("Failed to connect to "@ + link + " - "@ + reason),
        ),
        ProbeOutcomeView::TcpTimedOut => Err(
            BridgeErrorView::Timeout(
                "Connection timeout to "@ + link + " after "@ + decimal_text(
                    probe_timeout(request) as nat,
                ) + "ms"@,
            ),
        ),
        ProbeOutcomeView::PortsUnknown(reason) => Err(
            BridgeErrorView::ConnectionError("Failed to list serial ports: "@ + reason),
        ),
        ProbeOutcomeView::PortMissing(ports) => Err(
            BridgeErrorView::ConnectionError(
                "Serial port "@ + link + " not found. Available ports: "@ + available_ports(ports),
            ),
        ),
        ProbeOutcomeView::PortOpened => Ok(
            "Serial port "@ + link + " is available and accessible"@,
        ),
        ProbeOutcomeView::PortRefused(reason) => Err(
            BridgeErrorView::ConnectionError(
                "Serial port "@ + link + " exists but cannot be opened: "@ + reason,
            ),
        ),
    }
}

/// Whether `port` is among the ports of the machine.
pub fn port_is_listed(port: &str, ports: &Vec<String>) -> (r: bool)
    ensures
        r == crate::device_manager::texts(ports@).contains(port@),
{
    let mut i: usize = 0;
    while i < ports.len()
        invariant
            i <= ports.len(),
            forall|k: int| 0 <= k < i ==> crate::device_manager::texts(ports@)[k] != port@,
        decreases ports.len() - i,
    {
        if spells(ports[i].as_str(), port) {
            assert(crate::device_manager::texts(ports@)[i as int] == port@);
            return true;
        }
        i += 1;
    }
    false
}

/// The texts of `list` with a comma and a space between them.
pub fn join_with_commas(list: &Vec<String>) -> (s: String)
    ensures
        s@ == listed_with_commas(crate::device_manager::texts(list@)),
{
    let ghost all = crate::device_manager::texts(list@);
    let mut s = String::new();
    let mut i: usize = 0;
    assert(all.take(0) =~= Seq::empty());
    while i < list.len()
        invariant
            i <= list.len(),
            all == crate::device_manager::texts(list@),
            s@ == listed_with_commas(all.take(i as int)),
        decreases list.len() - i,
    {
        proof {
            let next = all.take(i as int + 1);
            assert(next.drop_last() =~= all.take(i as int));
            assert(next.last() == list@[i as int]@);
            if i == 0 {
                assert(Seq::<char>::empty() + list@[0]@ =~= list@[0]@);
                assert(next[0] == list@[0]@);
            }
        }
        if i > 0 {
            s.append(", ");
        }
        s.append(list[i].as_str());
        i += 1;
    }
    assert(all.take(list.len() as int) =~= all);
    s
}

/// The address of the link that a probe is about.
pub fn probed_link(request: &ProbeRequest) -> (s: String)
    ensures
        s@ == probed(request@),
{
    match request {
        ProbeRequest::Tcp { host, port, .. } => join3(
            host.as_str(),
            ":",
            decimal_string(*port as u64).as_str(),
        ),
        ProbeRequest::Serial { port } => port.clone(),
    }
}

/// Reports what a probe found.
pub fn report_probe(request: &ProbeRequest, outcome: ProbeOutcome) -> (r: Result<
    String,
    BridgeError,
>)
    ensures
        match probe_report(request@, outcome@) {
            Ok(message) => r matches Ok(m) && m@ == message,
            Err(e) => r matches Err(x) && x@ == e,
        },
{
    let link = probed_link(request);
    match outcome {
        ProbeOutcome::TcpConnected => Ok(join("TCP connection successful to ", link.as_str())),
        ProbeOutcome::TcpFailed(reason) => {
            let mut message = join3("Failed to connect to ", link.as_str(), " - ");
            message.append(reason.as_str());
            Err(BridgeError::ConnectionError(message))
        },
        ProbeOutcome::TcpTimedOut => {
            let timeout_ms: u32 = match request {
                ProbeRequest::Tcp { timeout_ms, .. } => *timeout_ms,
                ProbeRequest::Serial { .. } => 0,
            };
            let mut message = join3("Connection timeout to ", link.as_str(), " after ");
            message.append(decimal_string(timeout_ms as u64).as_str());
            message.append("ms");
            Err(BridgeError::Timeout(message))
        },
        ProbeOutcome::PortsUnknown(reason) => Err(
            BridgeError::ConnectionError(join("Failed to list serial ports: ", reason.as_str())),
        ),
        ProbeOutcome::PortMissing(ports) => {
            let mut message = join3(
                "Serial port ",
                link.as_str(),
                " not found. Available ports: ",
            );
            if ports.len() == 0 {
                message.append("none");
            } else {
                message.append(join_with_commas(&ports).as_str());
            }
            Err(BridgeError::ConnectionError(message))
        },
        ProbeOutcome::PortOpened => Ok(
            join3("Serial port ", link.as_str(), " is available and accessible"),
        ),
        ProbeOutcome::PortRefused(reason) => {
            let mut message = join3(
                "Serial port ",
                link.as_str(),
                " exists but cannot be opened: ",
            );
            message.append(reason.as_str());
            Err(BridgeError::ConnectionError(message))
        },
    }
}

} // verus!
