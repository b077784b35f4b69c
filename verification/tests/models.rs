use scaleit_bridge::device_manager::DeviceManager;
use scaleit_bridge::error::BridgeError;
use scaleit_bridge::host::error::HostError;
use scaleit_bridge::host::protocol::Protocol;
use scaleit_bridge::miernik::devices::normalized_commands;
use scaleit_bridge::miernik::error::MiernikError;
use scaleit_bridge::migration::ProbeRequest;
use scaleit_bridge::models::device::default_baud_rate;
use scaleit_bridge::models::device::default_data_bits;
use scaleit_bridge::models::device::default_enabled;
use scaleit_bridge::models::device::default_flow_control;
use scaleit_bridge::models::device::default_parity;
use scaleit_bridge::models::device::default_serial_port;
use scaleit_bridge::models::device::default_stop_bits;
use scaleit_bridge::models::device::default_tcp_host;
use scaleit_bridge::models::device::default_tcp_port;
use scaleit_bridge::models::device::default_timeout_ms;
use scaleit_bridge::models::device::ConnectionConfig;
use scaleit_bridge::models::device::ConnectionType;
use scaleit_bridge::models::device::FlowControl;
use scaleit_bridge::models::device::Parity;
use scaleit_bridge::models::device::StopBits;
use scaleit_bridge::models::host::AppConfig;
use scaleit_bridge::models::host::HostConfig;
use scaleit_bridge::models::legacy_device::LegacyAppConfig;
use scaleit_bridge::models::legacy_device::LegacyDeviceConfig;
use scaleit_bridge::probe::port_is_listed;
use scaleit_bridge::probe::report_probe;
use scaleit_bridge::probe::ProbeOutcome;
use scaleit_bridge::text::trimmed_chars;
use scaleit_bridge::text_map::TextMap;

#[test]
fn protocol_names_ignore_case() {
    assert!(matches!(Protocol::from_str("rincmd"), Protocol::Rincmd));
    assert!(matches!(Protocol::from_str("Rinstrum"), Protocol::Rincmd));
    assert!(matches!(Protocol::from_str("DINI_ASCII"), Protocol::DiniAscii));
    assert!(matches!(Protocol::from_str("dini_argeo"), Protocol::DiniAscii));
    assert!(matches!(Protocol::from_str("Ascii"), Protocol::DiniAscii));
    match Protocol::from_str("Modbus") {
        Protocol::Custom(name) => assert_eq!(name, "Modbus"),
        other => panic!("unexpected: {:?}", other),
    }
    assert_eq!(Protocol::Rincmd.command_terminator(), "\r\n");
    assert_eq!(Protocol::DiniAscii.command_terminator(), "\r\n");
    assert_eq!(Protocol::Custom("x".to_string()).command_terminator(), "\r\n");
}

#[test]
fn defaults() {
    assert_eq!(default_tcp_host(), "192.168.1.254");
    assert_eq!(default_tcp_port(), 4001);
    assert_eq!(default_serial_port(), "COM1");
    assert_eq!(default_baud_rate(), 9600);
    assert_eq!(default_data_bits(), 8);
    assert_eq!(default_stop_bits(), StopBits::One);
    assert_eq!(default_parity(), Parity::NoParity);
    assert_eq!(default_flow_control(), FlowControl::NoFlowControl);
    assert_eq!(default_timeout_ms(), 1000);
    assert!(default_enabled());
    assert_eq!(scaleit_bridge::models::legacy_device::default_timeout_ms(), 1000);
    assert!(scaleit_bridge::models::legacy_device::default_enabled());
    assert!(scaleit_bridge::models::host::default_enabled());
    assert!(scaleit_bridge::models::miernik::default_enabled());
    let tcp = ConnectionConfig::Tcp { host: "h".to_string(), port: 1 };
    assert_eq!(tcp.connection_type(), ConnectionType::Tcp);
}

#[test]
fn error_texts() {
    assert_eq!(HostError::IoError("x".to_string()).to_string(), "IO error: x");
    assert_eq!(HostError::SerialPortError("x".to_string()).to_string(), "Serial port error: x");
    assert_eq!(
        HostError::ConfigurationError("x".to_string()).to_string(),
        "Invalid configuration: x"
    );
    assert_eq!(HostError::ProtocolError("x".to_string()).to_string(), "Protocol error: x");
    assert_eq!(MiernikError::DeviceError("x".to_string()).to_string(), "Device error: x");
    assert_eq!(
        MiernikError::HostError(HostError::Timeout("x".to_string())).to_string(),
        "Host error: Timeout error: x"
    );
    assert_eq!(
        MiernikError::ConfigurationError("x".to_string()).to_string(),
        "Configuration error: x"
    );
    assert_eq!(BridgeError::CommandError("x".to_string()).to_string(), "Command execution error: x");
}

#[test]
fn text_map_keeps_order_and_replaces_in_place() {
    let mut m: TextMap<String> = TextMap::new();
    assert!(m.is_empty());
    assert!(m.insert("b".to_string(), "1".to_string()).is_none());
    assert!(m.insert("a".to_string(), "2".to_string()).is_none());
    assert_eq!(m.insert("b".to_string(), "3".to_string()), Some("1".to_string()));
    assert_eq!(m.len(), 2);
    assert_eq!(m.key_at(0), "b");
    assert_eq!(m.value_at(0), "3");
    assert_eq!(m.get("a"), Some(&"2".to_string()));
    assert!(m.get("c").is_none());
    assert!(m.contains_key("a"));
    assert_eq!(m.remove("b"), Some("3".to_string()));
    assert!(m.remove("b").is_none());
    assert_eq!(m.len(), 1);
    assert_eq!(m.copy().key_at(0), "a");
}

#[test]
fn command_names_are_normalized_to_lowercase() {
    let mut m: TextMap<String> = TextMap::new();
    m.insert("readGross".to_string(), "A".to_string());
    m.insert("Tare".to_string(), "B".to_string());
    m.insert("READGROSS".to_string(), "C".to_string());
    let n = normalized_commands(&m);
    assert_eq!(n.len(), 2);
    assert_eq!(n.get("readgross"), Some(&"C".to_string()));
    assert_eq!(n.get("tare"), Some(&"B".to_string()));
    assert!(n.get("readGross").is_none());
}

fn legacy(
    name: &str,
    protocol: &str,
    connection: ConnectionConfig,
    names: &[&str],
    enabled: bool,
) -> LegacyDeviceConfig {
    let mut commands = TextMap::new();
    for n in names {
        commands.insert(n.to_string(), format!("raw-{}", n));
    }
    LegacyDeviceConfig {
        name: name.to_string(),
        manufacturer: "Rinstrum".to_string(),
        model: "C320".to_string(),
        protocol: protocol.to_string(),
        connection,
        timeout_ms: 3000,
        commands,
        enabled,
    }
}

#[test]
fn legacy_configuration_is_migrated() {
    let tcp = || ConnectionConfig::Tcp { host: "192.168.1.254".to_string(), port: 4001 };
    let serial = || ConnectionConfig::Serial {
        port: "/dev/ttyUSB0".to_string(),
        baud_rate: 9600,
        data_bits: 8,
        stop_bits: StopBits::One,
        parity: Parity::NoParity,
        flow_control: FlowControl::NoFlowControl,
    };
    let mut devices = TextMap::new();
    devices.insert("C320".to_string(), legacy("one", "RINCMD", tcp(), &["readGross", "tare"], true));
    devices.insert("DWF".to_string(), legacy("two", "DINI_ARGEO", serial(), &["readGross"], true));
    devices.insert("C321".to_string(), legacy("three", "RINCMD", tcp(), &["tare", "readGross"], false));
    devices.insert("C322".to_string(), legacy("four", "RINCMD", serial(), &["tare"], true));
    let config = DeviceManager::migrate_legacy_config(&LegacyAppConfig { devices }).unwrap();

    assert_eq!(config.hosts.len(), 2);
    assert_eq!(config.hosts.key_at(0), "host-1");
    assert_eq!(config.hosts.value_at(0).name, "Host 192.168.1.254:4001");
    assert_eq!(config.hosts.value_at(0).timeout_ms, 3000);
    assert!(config.hosts.value_at(0).enabled);
    assert_eq!(config.hosts.value_at(1).name, "Serial /dev/ttyUSB0 @ 9600 baud");
    assert_eq!(config.mierniki.len(), 3);
    assert_eq!(config.mierniki.key_at(2), "miernik-3");
    assert_eq!(config.mierniki.value_at(0).name, "Rinstrum C320");
    assert_eq!(config.mierniki.value_at(0).protocol, "RINCMD");
    assert_eq!(config.mierniki.value_at(0).commands.len(), 2);
    assert_eq!(config.devices.len(), 4);
    let first = config.devices.get("C320").unwrap();
    assert_eq!(first.host_id, "host-1");
    assert_eq!(first.miernik_id, "miernik-1");
    let third = config.devices.get("C321").unwrap();
    assert_eq!(third.host_id, "host-1");
    assert_eq!(third.miernik_id, "miernik-1");
    assert!(!third.enabled);
    assert_eq!(third.name, "three");
    let fourth = config.devices.get("C322").unwrap();
    assert_eq!(fourth.host_id, "host-2");
    assert_eq!(fourth.miernik_id, "miernik-3");
    // What was migrated can be loaded.
    let manager = DeviceManager::from_config(config).unwrap();
    assert_eq!(manager.get_devices().len(), 3);
}

#[test]
fn read_config_chooses_the_layout() {
    let mut hosts = TextMap::new();
    hosts.insert(
        "h".to_string(),
        HostConfig {
            name: "n".to_string(),
            connection: ConnectionConfig::Tcp { host: "x".to_string(), port: 1 },
            timeout_ms: 5,
            enabled: true,
        },
    );
    let current = AppConfig { hosts, mierniki: TextMap::new(), devices: TextMap::new() };
    let loaded =
        DeviceManager::read_config(Some(current), Err("no devices".to_string()), "c.json").unwrap();
    assert!(!loaded.migrated);
    assert_eq!(loaded.config.hosts.len(), 1);

    let mut devices = TextMap::new();
    devices.insert(
        "d".to_string(),
        legacy("one", "RINCMD", ConnectionConfig::Tcp { host: "x".to_string(), port: 1 }, &[], true),
    );
    let loaded = DeviceManager::read_config(
        Some(AppConfig::empty()),
        Ok(LegacyAppConfig { devices }),
        "c.json",
    )
    .unwrap();
    assert!(loaded.migrated);
    assert_eq!(loaded.config.devices.len(), 1);
    assert_eq!(loaded.config.hosts.key_at(0), "host-1");

    match DeviceManager::read_config(None, Err("expected value".to_string()), "c.json") {
        Err(BridgeError::ConfigurationError(m)) => assert_eq!(
            m,
            "Failed to parse config file c.json (tried both new and legacy format): expected value"
        ),
        other => panic!("unexpected: {:?}", other),
    }
}

#[test]
fn probes_are_reported() {
    let mut manager = DeviceManager::empty();
    manager
        .save_host(
            "t",
            HostConfig {
                name: "n".to_string(),
                connection: ConnectionConfig::Tcp { host: "10.0.0.7".to_string(), port: 4001 },
                timeout_ms: 750,
                enabled: true,
            },
        )
        .unwrap();
    manager
        .save_host(
            "s",
            HostConfig {
                name: "n".to_string(),
                connection: ConnectionConfig::Serial {
                    port: "COM7".to_string(),
                    baud_rate: 9600,
                    data_bits: 8,
                    stop_bits: StopBits::One,
                    parity: Parity::NoParity,
                    flow_control: FlowControl::NoFlowControl,
                },
                timeout_ms: 1,
                enabled: true,
            },
        )
        .unwrap();
    assert!(matches!(manager.test_host_connection("x"), Err(BridgeError::DeviceNotFound(_))));
    let tcp = manager.test_host_connection("t").unwrap();
    match &tcp {
        ProbeRequest::Tcp { address, timeout_ms, .. } => {
            assert_eq!(address, "10.0.0.7:4001");
            assert_eq!(*timeout_ms, 750);
        }
        other => panic!("unexpected: {:?}", other),
    }
    assert_eq!(
        report_probe(&tcp, ProbeOutcome::TcpConnected).unwrap(),
        "TCP connection successful to 10.0.0.7:4001"
    );
    match report_probe(&tcp, ProbeOutcome::TcpTimedOut) {
        Err(BridgeError::Timeout(m)) => {
            assert_eq!(m, "Connection timeout to 10.0.0.7:4001 after 750ms")
        }
        other => panic!("unexpected: {:?}", other),
    }
    match report_probe(&tcp, ProbeOutcome::TcpFailed("refused".to_string())) {
        Err(BridgeError::ConnectionError(m)) => {
            assert_eq!(m, "Failed to connect to 10.0.0.7:4001 - refused")
        }
        other => panic!("unexpected: {:?}", other),
    }
    let serial = manager.test_host_connection("s").unwrap();
    assert_eq!(
        report_probe(&serial, ProbeOutcome::PortOpened).unwrap(),
        "Serial port COM7 is available and accessible"
    );
    match report_probe(&serial, ProbeOutcome::PortMissing(vec![])) {
        Err(BridgeError::ConnectionError(m)) => {
            assert_eq!(m, "Serial port COM7 not found. Available ports: none")
        }
        other => panic!("unexpected: {:?}", other),
    }
    match report_probe(
        &serial,
        ProbeOutcome::PortMissing(vec!["COM1".to_string(), "COM2".to_string(), "COM3".to_string()]),
    ) {
        Err(BridgeError::ConnectionError(m)) => {
            assert_eq!(m, "Serial port COM7 not found. Available ports: COM1, COM2, COM3")
        }
        other => panic!("unexpected: {:?}", other),
    }
    match report_probe(&serial, ProbeOutcome::PortRefused("busy".to_string())) {
        Err(BridgeError::ConnectionError(m)) => {
            assert_eq!(m, "Serial port COM7 exists but cannot be opened: busy")
        }
        other => panic!("unexpected: {:?}", other),
    }
    match report_probe(&serial, ProbeOutcome::PortsUnknown("denied".to_string())) {
        Err(BridgeError::ConnectionError(m)) => {
            assert_eq!(m, "Failed to list serial ports: denied")
        }
        other => panic!("unexpected: {:?}", other),
    }
    assert!(port_is_listed("COM2", &vec!["COM1".to_string(), "COM2".to_string()]));
    assert!(!port_is_listed("COM7", &vec!["COM1".to_string(), "COM2".to_string()]));
}

#[test]
fn whitespace_is_these_characters_and_no_other() {
    let mut found: Vec<u32> = Vec::new();
    let mut code: u32 = 0;
    while code <= 0x10FFFF {
        if let Some(c) = char::from_u32(code) {
            if trimmed_chars(&c.to_string()).is_empty() {
                found.push(code);
            }
        }
        code += 1;
    }
    let mut expected: Vec<u32> = vec![0x09, 0x0A, 0x0B, 0x0C, 0x0D, 0x20, 0x85, 0xA0, 0x1680];
    expected.extend(0x2000..=0x200A);
    expected.extend([0x2028, 0x2029, 0x202F, 0x205F, 0x3000]);
    assert_eq!(found, expected);
    assert_eq!(found.len(), 25);
}

#[test]
fn ascii_names_change_case_letter_by_letter() {
    let mut code: u8 = 0;
    while code < 128 {
        let c = char::from(code);
        let mut commands: TextMap<String> = TextMap::new();
        commands.insert(format!("a{}Z", c), "raw".to_string());
        let lowered = normalized_commands(&commands);
        assert_eq!(lowered.key_at(0), &format!("a{}z", c.to_ascii_lowercase()));
        let tag = format!("x{}y", c);
        match Protocol::from_str(&tag) {
            Protocol::Custom(name) => assert_eq!(name, tag),
            other => panic!("unexpected: {:?}", other),
        }
        code += 1;
    }
    assert!(matches!(Protocol::from_str("rInCmD"), Protocol::Rincmd));
    assert!(matches!(Protocol::from_str("dini_ARGEO"), Protocol::DiniAscii));
}
