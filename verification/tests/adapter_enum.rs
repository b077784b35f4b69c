use scaleit_bridge::adapters::adapter_enum::DeviceAdapterEnum;
use scaleit_bridge::error::BridgeError;
use scaleit_bridge::models::device::Connection;
use scaleit_bridge::models::device::FlowControl;
use scaleit_bridge::models::device::Parity;
use scaleit_bridge::models::device::StopBits;
use scaleit_bridge::text_map::TextMap;

fn serial_connection() -> Connection {
    Connection::Serial {
        port: "COM1".to_string(),
        baud_rate: 9600,
        data_bits: 8,
        stop_bits: StopBits::One,
        parity: Parity::NoParity,
        flow_control: FlowControl::NoFlowControl,
        timeout_ms: 1000,
    }
}

fn tcp_connection() -> Connection {
    Connection::Tcp {
        host: "192.168.1.100".to_string(),
        port: 4001,
        timeout_ms: 5000,
    }
}

#[test]
fn test_adapter_creation() {
    let dini = DeviceAdapterEnum::new_dini_argeo(
        "test_device".to_string(),
        serial_connection(),
        TextMap::new(),
    )
    .unwrap();
    assert_eq!(dini.adapter_type(), "dini_argeo");
    assert_eq!(dini.device_name(), "Dini Argeo ASCII");

    let rinstrum =
        DeviceAdapterEnum::new_rinstrum("test_device".to_string(), tcp_connection(), TextMap::new())
            .unwrap();
    assert_eq!(rinstrum.adapter_type(), "rinstrum");
    assert_eq!(rinstrum.device_name(), "Rinstrum C320");
}

#[test]
fn test_from_config() {
    let dini = DeviceAdapterEnum::from_config(
        "dini_argeo",
        "test_device".to_string(),
        serial_connection(),
        TextMap::new(),
    )
    .unwrap();
    assert_eq!(dini.adapter_type(), "dini_argeo");

    let rinstrum = DeviceAdapterEnum::from_config(
        "rinstrum",
        "test_device".to_string(),
        tcp_connection(),
        TextMap::new(),
    )
    .unwrap();
    assert_eq!(rinstrum.adapter_type(), "rinstrum");

    let unknown = DeviceAdapterEnum::from_config(
        "unknown",
        "test_device".to_string(),
        serial_connection(),
        TextMap::new(),
    );
    assert!(unknown.is_err());
}

#[test]
fn test_clone() {
    let adapter = DeviceAdapterEnum::new_dini_argeo(
        "test_device".to_string(),
        serial_connection(),
        TextMap::new(),
    )
    .unwrap();
    let cloned = adapter.clone();
    assert_eq!(adapter.adapter_type(), cloned.adapter_type());
}

#[test]
fn adapter_type_names_ignore_case() {
    for name in ["DFW", "Ascii", "DiniArgeo", "dinia"] {
        let a = DeviceAdapterEnum::from_config(
            name,
            "d".to_string(),
            tcp_connection(),
            TextMap::new(),
        )
        .unwrap();
        assert_eq!(a.adapter_type(), "dini_argeo");
    }
    for name in ["RINCMD", "Rinstrum_C320"] {
        let a = DeviceAdapterEnum::from_config(
            name,
            "d".to_string(),
            tcp_connection(),
            TextMap::new(),
        )
        .unwrap();
        assert_eq!(a.adapter_type(), "rinstrum");
    }
    match DeviceAdapterEnum::from_config("Modbus", "d".to_string(), tcp_connection(), TextMap::new())
    {
        Err(BridgeError::ConfigurationError(m)) => assert_eq!(m, "Unknown adapter type: Modbus"),
        other => panic!("unexpected: {:?}", other),
    }
}
