//! How a device is reached and how it is described.

use crate::text_map::Record;
use vstd::prelude::*;

verus! {

/// The parity bit of a serial line.
#[derive(Debug, Clone, Copy, PartialEq, Eq, Structural)]
pub enum Parity {
    NoParity,
    Even,
    Odd,
}

/// The stop bits of a serial line.
#[derive(Debug, Clone, Copy, PartialEq, Eq, Structural)]
pub enum StopBits {
    One,
    Two,
}

/// The flow control of a serial line.
#[derive(Debug, Clone, Copy, PartialEq, Eq, Structural)]
pub enum FlowControl {
    NoFlowControl,
    Software,
    Hardware,
}

/// The two kinds of link.
#[derive(Debug, Clone, Copy, PartialEq, Eq, Structural)]
pub enum ConnectionType {
    Tcp,
    Serial,
}

/// The settings of a link as they are stored.
#[derive(Debug)]
pub enum ConnectionConfig {
    Tcp { host: String, port: u16 },
    Serial {
        port: String,
        baud_rate: u32,
        data_bits: u8,
        stop_bits: StopBits,
        parity: Parity,
        flow_control: FlowControl,
    },
}

/// The mathematical content of a [`ConnectionConfig`].
pub enum ConnectionConfigView {
    Tcp { host: Seq<char>, port: u16 },
    Serial {
        port: Seq<char>,
        baud_rate: u32,
        data_bits: u8,
        stop_bits: StopBits,
        parity: Parity,
        flow_control: FlowControl,
    },
}

impl View for ConnectionConfig {
    type V = ConnectionConfigView;

    open spec fn view(&self) -> ConnectionConfigView {
        match self {
            ConnectionConfig::Tcp { host, port } => ConnectionConfigView::Tcp {
                host: host@,
                port: *port,
            },
            ConnectionConfig::Serial {
                port,
                baud_rate,
                data_bits,
                stop_bits,
                parity,
                flow_control,
            } => ConnectionConfigView::Serial {
                port: port@,
                baud_rate: *baud_rate,
                data_bits: *data_bits,
                stop_bits: *stop_bits,
                parity: *parity,
                flow_control: *flow_control,
            },
        }
    }
}

impl Record for ConnectionConfig {
    fn copy(&self) -> (r: ConnectionConfig) {
        match self {
            ConnectionConfig::Tcp { host, port } => ConnectionConfig::Tcp {
                host: host.clone(),
                port: *port,
            },
            ConnectionConfig::Serial {
                port,
                baud_rate,
                data_bits,
                stop_bits,
                parity,
                flow_control,
            } => ConnectionConfig::Serial {
                port: port.clone(),
                baud_rate: *baud_rate,
                data_bits: *data_bits,
                stop_bits: *stop_bits,
                parity: *parity,
                flow_control: *flow_control,
            },
        }
    }
}

impl ConnectionConfig {
    /// The kind of link that the settings describe.
    pub fn connection_type(&self) -> (kind: ConnectionType)
        ensures
            kind == match self@ {
                ConnectionConfigView::Tcp { .. } => ConnectionType::Tcp,
                ConnectionConfigView::Serial { .. } => ConnectionType::Serial,
            },
    {
        match self {
            ConnectionConfig::Tcp { .. } => ConnectionType::Tcp,
            ConnectionConfig::Serial { .. } => ConnectionType::Serial,
        }
    }
}

/// The host of a TCP link whose settings name none.
pub const DEFAULT_TCP_HOST: &'static str = "192.168.1.254";

/// The port of a serial link whose settings name none.
pub const DEFAULT_SERIAL_PORT: &'static str = "COM1";

/// The host of a TCP link whose settings name none.
pub fn default_tcp_host() -> (host: String)
    ensures
        host@ == DEFAULT_TCP_HOST@,
{
    DEFAULT_TCP_HOST.to_string()
}

/// The port of a TCP link whose settings name none.
pub fn default_tcp_port() -> (port: u16)
    ensures
        port == 4001,
{
    4001
}

/// The port of a serial link whose settings name none.
pub fn default_serial_port() -> (port: String)
    ensures
        port@ == DEFAULT_SERIAL_PORT@,
{
    DEFAULT_SERIAL_PORT.to_string()
}

/// The speed of a serial link whose settings name none.
pub fn default_baud_rate() -> (baud_rate: u32)
    ensures
        baud_rate == 9600,
{
    9600
}

/// The data bits of a serial link whose settings name none.
pub fn default_data_bits() -> (data_bits: u8)
    ensures
        data_bits == 8,
{
    8
}

/// The stop bits of a serial link whose settings name none.
pub fn default_stop_bits() -> (stop_bits: StopBits)
    ensures
        stop_bits == StopBits::One,
{
    StopBits::One
}

/// The parity of a serial link whose settings name none.
pub fn default_parity() -> (parity: Parity)
    ensures
        parity == Parity::NoParity,
{
    Parity::NoParity
}

/// The flow control of a serial link whose settings name none.
pub fn default_flow_control() -> (flow_control: FlowControl)
    ensures
        flow_control == FlowControl::NoFlowControl,
{
    FlowControl::NoFlowControl
}

/// The time, in milliseconds, that a link waits where its settings name
/// none.
pub fn default_timeout_ms() -> (timeout_ms: u32)
    ensures
        timeout_ms == 1000,
{
    1000
}

/// A device is enabled unless its settings say otherwise.
pub fn default_enabled() -> (enabled: bool)
    ensures
        enabled,
{
    true
}

/// The settings of a link together with the time it waits: what an adapter
/// is built from.
#[derive(Debug)]
pub enum Connection {
    Tcp { host: String, port: u16, timeout_ms: u32 },
    Serial {
        port: String,
        baud_rate: u32,
        data_bits: u8,
        stop_bits: StopBits,
        parity: Parity,
        flow_control: FlowControl,
        timeout_ms: u32,
    },
}

/// The mathematical content of a [`Connection`].
pub enum ConnectionView {
    Tcp { host: Seq<char>, port: u16, timeout_ms: u32 },
    Serial {
        port: Seq<char>,
        baud_rate: u32,
        data_bits: u8,
        stop_bits: StopBits,
        parity: Parity,
        flow_control: FlowControl,
        timeout_ms: u32,
    },
}

impl View for Connection {
    type V = ConnectionView;

    open spec fn view(&self) -> ConnectionView {
        match self {
            Connection::Tcp { host, port, timeout_ms } => ConnectionView::Tcp {
                host: host@,
                port: *port,
                timeout_ms: *timeout_ms,
            },
            Connection::Serial {
                port,
                baud_rate,
                data_bits,
                stop_bits,
                parity,
                flow_control,
                timeout_ms,
            } => ConnectionView::Serial {
                port: port@,
                baud_rate: *baud_rate,
                data_bits: *data_bits,
                stop_bits: *stop_bits,
                parity: *parity,
                flow_control: *flow_control,
                timeout_ms: *timeout_ms,
            },
        }
    }
}

impl Record for Connection {
    fn copy(&self) -> (r: Connection) {
        match self {
            Connection::Tcp { host, port, timeout_ms } => Connection::Tcp {
                host: host.clone(),
                port: *port,
                timeout_ms: *timeout_ms,
            },
            Connection::Serial {
                port,
                baud_rate,
                data_bits,
                stop_bits,
                parity,
                flow_control,
                timeout_ms,
            } => Connection::Serial {
                port: port.clone(),
                baud_rate: *baud_rate,
                data_bits: *data_bits,
                stop_bits: *stop_bits,
                parity: *parity,
                flow_control: *flow_control,
                timeout_ms: *timeout_ms,
            },
        }
    }
}

impl ConnectionView {
    /// The time, in milliseconds, that the link waits.
    pub open spec fn timeout_ms(self) -> u32 {
        match self {
            ConnectionView::Tcp { timeout_ms, .. } => timeout_ms,
            ConnectionView::Serial { timeout_ms, .. } => timeout_ms,
        }
    }

    /// The stored settings of a link with the time it waits.
    pub open spec fn of_config(config: ConnectionConfigView, timeout_ms: u32) -> ConnectionView {
        match config {
            ConnectionConfigView::Tcp { host, port } => ConnectionView::Tcp {
                host,
                port,
                timeout_ms,
            },
            ConnectionConfigView::Serial {
                port,
                baud_rate,
                data_bits,
                stop_bits,
                parity,
                flow_control,
            } => ConnectionView::Serial {
                port,
                baud_rate,
                data_bits,
                stop_bits,
                parity,
                flow_control,
                timeout_ms,
            },
        }
    }
}

impl Connection {
    /// The stored settings of a link with the time it waits.
    pub fn of_config(config: &ConnectionConfig, timeout_ms: u32) -> (r: Connection)
        ensures
            r@ == ConnectionView::of_config(config@, timeout_ms),
    {
        match config {
            ConnectionConfig::Tcp { host, port } => Connection::Tcp {
                host: host.clone(),
                port: *port,
                timeout_ms,
            },
            ConnectionConfig::Serial {
                port,
                baud_rate,
                data_bits,
                stop_bits,
                parity,
                flow_control,
            } => Connection::Serial {
                port: port.clone(),
                baud_rate: *baud_rate,
                data_bits: *data_bits,
                stop_bits: *stop_bits,
                parity: *parity,
                flow_control: *flow_control,
                timeout_ms,
            },
        }
    }

    /// The time, in milliseconds, that the link waits.
    pub fn timeout_ms(&self) -> (t: u32)
        ensures
            t == self@.timeout_ms(),
    {
        match self {
            Connection::Tcp { timeout_ms, .. } => *timeout_ms,
            Connection::Serial { timeout_ms, .. } => *timeout_ms,
        }
    }
}

/// A device of the registry: its description, the host it is reached
/// through and the indicator it is.
#[derive(Debug)]
pub struct DeviceConfig {
    pub name: String,
    pub manufacturer: String,
    pub model: String,
    pub host_id: String,
    pub miernik_id: String,
    pub enabled: bool,
}

/// The mathematical content of a [`DeviceConfig`].
pub struct DeviceConfigView {
    pub name: Seq<char>,
    pub manufacturer: Seq<char>,
    pub model: Seq<char>,
    pub host_id: Seq<char>,
    pub miernik_id: Seq<char>,
    pub enabled: bool,
}

impl View for DeviceConfig {
    type V = DeviceConfigView;

    open spec fn view(&self) -> DeviceConfigView {
        DeviceConfigView {
            name: self.name@,
            manufacturer: self.manufacturer@,
            model: self.model@,
            host_id: self.host_id@,
            miernik_id: self.miernik_id@,
            enabled: self.enabled,
        }
    }
}

impl Record for DeviceConfig {
    fn copy(&self) -> (r: DeviceConfig) {
        DeviceConfig {
            name: self.name.clone(),
            manufacturer: self.manufacturer.clone(),
            model: self.model.clone(),
            host_id: self.host_id.clone(),
            miernik_id: self.miernik_id.clone(),
            enabled: self.enabled,
        }
    }
}

/// A request to store the settings of one device.
#[derive(Debug)]
pub struct SaveConfigRequest {
    pub device_id: String,
    pub config: DeviceConfig,
}

} // verus!
