//! Errors of the link layer.

use crate::views::join;
use vstd::prelude::*;

verus! {

/// What can go wrong on a link. Each kind carries its message.
#[derive(Debug)]
pub enum HostError {
    ConnectionError(String),
    IoError(String),
    Timeout(String),
    ProtocolError(String),
    SerialPortError(String),
    ConfigurationError(String),
}

/// The mathematical content of a [`HostError`].
pub enum HostErrorView {
    ConnectionError(Seq<char>),
    IoError(Seq<char>),
    Timeout(Seq<char>),
    ProtocolError(Seq<char>),
    SerialPortError(Seq<char>),
    ConfigurationError(Seq<char>),
}

impl View for HostError {
    type V = HostErrorView;

    open spec fn view(&self) -> HostErrorView {
        match self {
            HostError::ConnectionError(m) => HostErrorView::ConnectionError(m@),
            HostError::IoError(m) => HostErrorView::IoError(m@),
            HostError::Timeout(m) => HostErrorView::Timeout(m@),
            HostError::ProtocolError(m) => HostErrorView::ProtocolError(m@),
            HostError::SerialPortError(m) => HostErrorView::SerialPortError(m@),
            HostError::ConfigurationError(m) => HostErrorView::ConfigurationError(m@),
        }
    }
}

impl HostErrorView {
    /// The text that describes the error: the name of its kind, a colon and
    /// the message.
    pub open spec fn text(self) -> Seq<char> {
        match self {
            HostErrorView::ConnectionError(m) => "Connection error: "@ + m,
            HostErrorView::IoError(m) => "IO error: "@ + m,
            HostErrorView::Timeout(m) => "Timeout error: "@ + m,
            HostErrorView::ProtocolError(m) => "Protocol error: "@ + m,
            HostErrorView::SerialPortError(m) => "Serial port error: "@ + m,
            HostErrorView::ConfigurationError(m) => "Invalid configuration: "@ + m,
        }
    }
}

impl HostError {
    /// The text that describes the error.
    pub fn to_string(&self) -> (s: String)
        ensures
            s@ == self@.text(),
    {
        match self {
            HostError::ConnectionError(m) => join("Connection error: ", m.as_str()),
            HostError::IoError(m) => join("IO error: ", m.as_str()),
            HostError::Timeout(m) => join("Timeout error: ", m.as_str()),
            HostError::ProtocolError(m) => join("Protocol error: ", m.as_str()),
            HostError::SerialPortError(m) => join("Serial port error: ", m.as_str()),
            HostError::ConfigurationError(m) => join("Invalid configuration: ", m.as_str()),
        }
    }
}

} // verus!
