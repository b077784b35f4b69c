//! Errors of the bridge.

use crate::views::join;
use vstd::prelude::*;

verus! {

/// What a request to the bridge can fail with. Each kind carries its
/// message; a caller tells the kinds apart and maps them to its own
/// answers.
#[derive(Debug)]
pub enum BridgeError {
    DeviceNotFound(String),
    ConnectionError(String),
    CommandError(String),
    ConfigurationError(String),
    IoError(String),
    SerializationError(String),
    Timeout(String),
    ProtocolError(String),
    InvalidCommand(String),
    InternalServerError(String),
    Unknown(String),
}

/// The mathematical content of a [`BridgeError`].
pub enum BridgeErrorView {
    DeviceNotFound(Seq<char>),
    ConnectionError(Seq<char>),
    CommandError(Seq<char>),
    ConfigurationError(Seq<char>),
    IoError(Seq<char>),
    SerializationError(Seq<char>),
    Timeout(Seq<char>),
    ProtocolError(Seq<char>),
    InvalidCommand(Seq<char>),
    InternalServerError(Seq<char>),
    Unknown(Seq<char>),
}

impl View for BridgeError {
    type V = BridgeErrorView;

    open spec fn view(&self) -> BridgeErrorView {
        match self {
            BridgeError::DeviceNotFound(m) => BridgeErrorView::DeviceNotFound(m@),
            BridgeError::ConnectionError(m) => BridgeErrorView::ConnectionError(m@),
            BridgeError::CommandError(m) => BridgeErrorView::CommandError(m@),
            BridgeError::ConfigurationError(m) => BridgeErrorView::ConfigurationError(m@),
            BridgeError::IoError(m) => BridgeErrorView::IoError(m@),
            BridgeError::SerializationError(m) => BridgeErrorView::SerializationError(m@),
            BridgeError::Timeout(m) => BridgeErrorView::Timeout(m@),
            BridgeError::ProtocolError(m) => BridgeErrorView::ProtocolError(m@),
            BridgeError::InvalidCommand(m) => BridgeErrorView::InvalidCommand(m@),
            BridgeError::InternalServerError(m) => BridgeErrorView::InternalServerError(m@),
            BridgeError::Unknown(m) => BridgeErrorView::Unknown(m@),
        }
    }
}

impl BridgeErrorView {
    /// The text that describes the error: the name of its kind, a colon and
    /// the message.
    pub open spec fn text(self) -> Seq<char> {
        match self {
            BridgeErrorView::DeviceNotFound(m) => "Device not found: "@ + m,
            BridgeErrorView::ConnectionError(m) => "Connection error: "@ + m,
            BridgeErrorView::CommandError(m) => "Command execution error: "@ + m,
            BridgeErrorView::ConfigurationError(m) => "Configuration error: "@ + m,
            BridgeErrorView::IoError(m) => "I/O error: "@ + m,
            BridgeErrorView::SerializationError(m) => "Serialization error: "@ + m,
            BridgeErrorView::Timeout(m) => "Timeout error: "@ + m,
            BridgeErrorView::ProtocolError(m) => "Protocol error: "@ + m,
            BridgeErrorView::InvalidCommand(m) => "Invalid command: "@ + m,
            BridgeErrorView::InternalServerError(m) => "Internal server error: "@ + m,
            BridgeErrorView::Unknown(m) => "Unknown error: "@ + m,
        }
    }
}

impl BridgeError {
    /// The text that describes the error.
    pub fn to_string(&self) -> (s: String)
        ensures
            s@ == self@.text(),
    {
        match self {
            BridgeError::DeviceNotFound(m) => join("Device not found: ", m.as_str()),
            BridgeError::ConnectionError(m) => join("Connection error: ", m.as_str()),
            BridgeError::CommandError(m) => join("Command execution error: ", m.as_str()),
            BridgeError::ConfigurationError(m) => join("Configuration error: ", m.as_str()),
            BridgeError::IoError(m) => join("I/O error: ", m.as_str()),
            BridgeError::SerializationError(m) => join("Serialization error: ", m.as_str()),
            BridgeError::Timeout(m) => join("Timeout error: ", m.as_str()),
            BridgeError::ProtocolError(m) => join("Protocol error: ", m.as_str()),
            BridgeError::InvalidCommand(m) => join("Invalid command: ", m.as_str()),
            BridgeError::InternalServerError(m) => join("Internal server error: ", m.as_str()),
            BridgeError::Unknown(m) => join("Unknown error: ", m.as_str()),
        }
    }
}

} // verus!
