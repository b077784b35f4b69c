//! Errors of the device layer.

use crate::host::error::HostError;
use crate::host::error::HostErrorView;
use crate::views::join;
use vstd::prelude::*;

verus! {

/// What can go wrong between a logical command and a weight reading. An
/// error of the link is carried as it is, so that its kind stays known.
#[derive(Debug)]
pub enum MiernikError {
    DeviceError(String),
    InvalidCommand(String),
    ProtocolError(String),
    ConfigurationError(String),
    HostError(HostError),
}

/// The mathematical content of a [`MiernikError`].
pub enum MiernikErrorView {
    DeviceError(Seq<char>),
    InvalidCommand(Seq<char>),
    ProtocolError(Seq<char>),
    ConfigurationError(Seq<char>),
    HostError(HostErrorView),
}

impl View for MiernikError {
    type V = MiernikErrorView;

    open spec fn view(&self) -> MiernikErrorView {
        match self {
            MiernikError::DeviceError(m) => MiernikErrorView::DeviceError(m@),
            MiernikError::InvalidCommand(m) => MiernikErrorView::InvalidCommand(m@),
            MiernikError::ProtocolError(m) => MiernikErrorView::ProtocolError(m@),
            MiernikError::ConfigurationError(m) => MiernikErrorView::ConfigurationError(m@),
            MiernikError::HostError(e) => MiernikErrorView::HostError(e@),
        }
    }
}

impl MiernikErrorView {
    /// The text that describes the error: the name of its kind, a colon and
    /// the message; for an error of the link, the text of that error.
    pub open spec fn text(self) -> Seq<char> {
        match self {
            MiernikErrorView::DeviceError(m) => "Device error: "@ + m,
            MiernikErrorView::InvalidCommand(m) => "Invalid command: "@ + m,
            MiernikErrorView::ProtocolError(m) => "Protocol error: "@ + m,
            MiernikErrorView::ConfigurationError(m) => "Configuration error: "@ + m,
            MiernikErrorView::HostError(e) => "Host error: "@ + e.text(),
        }
    }
}

impl MiernikError {
    /// The text that describes the error.
    pub fn to_string(&self) -> (s: String)
        ensures
            s@ == self@.text(),
    {
        match self {
            MiernikError::DeviceError(m) => join("Device error: ", m.as_str()),
            MiernikError::InvalidCommand(m) => join("Invalid command: ", m.as_str()),
            MiernikError::ProtocolError(m) => join("Protocol error: ", m.as_str()),
            MiernikError::ConfigurationError(m) => join("Configuration error: ", m.as_str()),
            MiernikError::HostError(e) => join("Host error: ", e.to_string().as_str()),
        }
    }
}

} // verus!
