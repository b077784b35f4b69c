use scaleit_bridge::decimal::Decimal;
use scaleit_bridge::device_manager::CommandStep;
use scaleit_bridge::device_manager::DeviceManager;
use scaleit_bridge::error::BridgeError;
use scaleit_bridge::host::commands::Event;
use scaleit_bridge::host::connection::OpenOutcome;
use scaleit_bridge::host::connection::OpenRequest;
use scaleit_bridge::models::device::ConnectionConfig;
use scaleit_bridge::models::device::DeviceConfig;
use scaleit_bridge::models::device::FlowControl;
use scaleit_bridge::models::device::Parity;
use scaleit_bridge::models::device::StopBits;
use scaleit_bridge::models::host::AppConfig;
use scaleit_bridge::models::host::HostConfig;
use scaleit_bridge::models::miernik::MiernikConfig;
use scaleit_bridge::models::weight::ScaleCommandRequest;
use scaleit_bridge::text_map::TextMap;

fn number(d: &Decimal) -> f64 {
    d.to_string().parse::<f64>().unwrap()
}

fn miernik(protocol: &str, gross: &str) -> MiernikConfig {
    let mut commands = TextMap::new();
    commands.insert("readGross".to_string(), gross.to_string());
    commands.insert("tare".to_string(), "TARE".to_string());
    MiernikConfig {
        name: protocol.to_string(),
        protocol: protocol.to_string(),
        manufacturer: "Maker".to_string(),
        model: "Model".to_string(),
        commands,
        enabled: true,
    }
}

fn device(name: &str, host: &str, miernik: &str, enabled: bool) -> DeviceConfig {
    DeviceConfig {
        name: name.to_string(),
        manufacturer: "Test Manufacturer".to_string(),
        model: format!("{}_Model", name),
        host_id: host.to_string(),
        miernik_id: miernik.to_string(),
        enabled,
    }
}

fn config() -> AppConfig {
    let mut hosts = TextMap::new();
    hosts.insert(
        "h1".to_string(),
        HostConfig {
            name: "tcp".to_string(),
            connection: ConnectionConfig::Tcp { host: "127.0.0.1".to_string(), port: 4001 },
            timeout_ms: 1000,
            enabled: true,
        },
    );
    hosts.insert(
        "h2".to_string(),
        HostConfig {
            name: "serial".to_string(),
            connection: ConnectionConfig::Serial {
                port: "COM3".to_string(),
                baud_rate: 9600,
                data_bits: 8,
                stop_bits: StopBits::One,
                parity: Parity::NoParity,
                flow_control: FlowControl::NoFlowControl,
            },
            timeout_ms: 2000,
            enabled: true,
        },
    );
    let mut mierniki = TextMap::new();
    mierniki.insert("m1".to_string(), miernik("RINCMD", "20050026"));
    mierniki.insert("m2".to_string(), miernik("dini_argeo", "READ"));
    let mut devices = TextMap::new();
    devices.insert("tcp_scale".to_string(), device("Test TCP Scale", "h1", "m1", true));
    devices.insert("serial_scale".to_string(), device("Serial", "h2", "m2", true));
    devices.insert("disabled_scale".to_string(), device("Disabled", "h1", "m1", false));
    AppConfig { hosts, mierniki, devices }
}

fn request(device_id: &str, command: &str) -> ScaleCommandRequest {
    ScaleCommandRequest { device_id: device_id.to_string(), command: command.to_string() }
}

#[test]
fn registry_lists_enabled_devices_only() {
    let manager = DeviceManager::from_config(config()).unwrap();
    let devices = manager.get_devices();
    assert_eq!(devices.len(), 2);
    assert_eq!(
        devices[0],
        ("tcp_scale".to_string(), "Test TCP Scale".to_string(), "Test TCP Scale_Model".to_string())
    );
    assert_eq!(devices[1].0, "serial_scale");
    assert_eq!(manager.list_configs().len(), 3);
    assert_eq!(manager.list_hosts().len(), 2);
    assert_eq!(manager.list_mierniki().len(), 2);
    assert_eq!(manager.get_config("tcp_scale").unwrap().name, "Test TCP Scale");
    assert!(!manager.get_config("disabled_scale").unwrap().enabled);
}

#[test]
fn unknown_ids_are_not_found() {
    let manager = DeviceManager::from_config(config()).unwrap();
    match manager.get_config("nonexistent") {
        Err(BridgeError::DeviceNotFound(id)) => assert_eq!(id, "nonexistent"),
        other => panic!("unexpected: {:?}", other),
    }
    match manager.get_host("nope") {
        Err(BridgeError::DeviceNotFound(m)) => assert_eq!(m, "Host 'nope' not found"),
        other => panic!("unexpected: {:?}", other),
    }
    match manager.get_miernik("nope") {
        Err(BridgeError::DeviceNotFound(m)) => assert_eq!(m, "Miernik 'nope' not found"),
        other => panic!("unexpected: {:?}", other),
    }
}

#[test]
fn command_to_disabled_device_is_invalid() {
    let mut manager = DeviceManager::from_config(config()).unwrap();
    match manager.execute_command(&request("disabled_scale", "readGross")) {
        CommandStep::Finished(Err(BridgeError::InvalidCommand(m))) => {
            assert_eq!(m, "Device disabled_scale is disabled")
        }
        other => panic!("unexpected: {:?}", other),
    }
    assert!(manager.connect_all_devices().iter().all(|(id, _)| id != "disabled_scale"));
}

#[test]
fn command_to_unknown_device_is_not_found() {
    let mut manager = DeviceManager::from_config(config()).unwrap();
    match manager.execute_command(&request("nonexistent", "readGross")) {
        CommandStep::Finished(Err(BridgeError::DeviceNotFound(id))) => {
            assert_eq!(id, "nonexistent")
        }
        other => panic!("unexpected: {:?}", other),
    }
}

#[test]
fn command_runs_through_the_exchange() {
    let mut manager = DeviceManager::from_config(config()).unwrap();
    let req = request("tcp_scale", "READGROSS");
    match manager.execute_command(&req) {
        CommandStep::Open(OpenRequest::Tcp { address, timeout_ms, no_delay }) => {
            assert_eq!(address, "127.0.0.1:4001");
            assert_eq!(timeout_ms, 1000);
            assert!(no_delay);
        }
        other => panic!("unexpected: {:?}", other),
    }
    match manager.advance(&req, Event::Opened) {
        CommandStep::Write { bytes, timeout_ms } => {
            assert_eq!(bytes, b"20050026\r\n".to_vec());
            assert_eq!(timeout_ms, 1000);
        }
        other => panic!("unexpected: {:?}", other),
    }
    match manager.advance(&req, Event::Written) {
        CommandStep::Read { timeout_ms } => assert_eq!(timeout_ms, 1000),
        other => panic!("unexpected: {:?}", other),
    }
    match manager.advance_at(&req, Event::Received(b"20050026+123.45kg\r\n".to_vec()), 77) {
        CommandStep::Finished(Ok(response)) => {
            assert!(response.success);
            assert_eq!(response.device_id, "tcp_scale");
            assert_eq!(response.command, "READGROSS");
            assert!(response.error.is_none());
            let reading = response.result.unwrap();
            assert_eq!(number(&reading.gross_weight), 123.45);
            assert_eq!(number(&reading.net_weight), 0.0);
            assert_eq!(reading.unit, "kg");
            assert!(reading.is_stable);
            assert_eq!(reading.timestamp, 77);
        }
        other => panic!("unexpected: {:?}", other),
    }
}

#[test]
fn unknown_command_is_an_invalid_command() {
    let mut manager = DeviceManager::from_config(config()).unwrap();
    for name in ["fly", "FLY", "Fly"] {
        match manager.execute_command(&request("tcp_scale", name)) {
            CommandStep::Finished(Err(BridgeError::InvalidCommand(m))) => {
                assert_eq!(m, format!("Unknown command: {}", name))
            }
            other => panic!("unexpected: {:?}", other),
        }
    }
    // Nothing was started: the next command opens the link.
    assert!(matches!(
        manager.execute_command(&request("tcp_scale", "readgross")),
        CommandStep::Open(_)
    ));
}

#[test]
fn answers_that_cannot_be_read_are_protocol_errors() {
    let mut manager = DeviceManager::from_config(config()).unwrap();
    let req = request("tcp_scale", "readgross");
    assert!(matches!(manager.execute_command(&req), CommandStep::Open(_)));
    assert!(matches!(manager.advance(&req, Event::Opened), CommandStep::Write { .. }));
    assert!(matches!(manager.advance(&req, Event::Written), CommandStep::Read { .. }));
    match manager.advance(&req, Event::Received(b"E\r\n".to_vec())) {
        CommandStep::Finished(Err(BridgeError::ProtocolError(m))) => {
            assert_eq!(m, "Device returned error 'E'")
        }
        other => panic!("unexpected: {:?}", other),
    }
}

#[test]
fn second_command_to_a_busy_device_is_refused() {
    let mut manager = DeviceManager::from_config(config()).unwrap();
    let req = request("tcp_scale", "readGross");
    assert!(matches!(manager.execute_command(&req), CommandStep::Open(_)));
    match manager.execute_command(&req) {
        CommandStep::Finished(Err(BridgeError::ConnectionError(m))) => {
            assert_eq!(m, "Exchange already in progress")
        }
        other => panic!("unexpected: {:?}", other),
    }
    // The other device is free all the while.
    assert!(matches!(
        manager.execute_command(&request("serial_scale", "readgross")),
        CommandStep::Open(OpenRequest::Serial { .. })
    ));
}

#[test]
fn link_errors_reach_the_caller_with_their_kind() {
    let mut manager = DeviceManager::from_config(config()).unwrap();
    let req = request("tcp_scale", "tare");
    assert!(matches!(manager.execute_command(&req), CommandStep::Open(_)));
    match manager.advance(&req, Event::OpenTimedOut) {
        CommandStep::Finished(Err(BridgeError::Timeout(m))) => {
            assert_eq!(m, "Connection timeout after 1000ms")
        }
        other => panic!("unexpected: {:?}", other),
    }
    assert!(matches!(manager.execute_command(&req), CommandStep::Open(_)));
    match manager.advance(&req, Event::OpenFailed("refused".to_string())) {
        CommandStep::Finished(Err(BridgeError::ConnectionError(m))) => {
            assert_eq!(m, "Failed to connect: refused")
        }
        other => panic!("unexpected: {:?}", other),
    }
    assert!(matches!(manager.execute_command(&req), CommandStep::Open(_)));
    assert!(matches!(manager.advance(&req, Event::Opened), CommandStep::Write { .. }));
    match manager.advance(&req, Event::WriteFailed("broken pipe".to_string())) {
        CommandStep::Finished(Err(BridgeError::IoError(m))) => assert_eq!(m, "broken pipe"),
        other => panic!("unexpected: {:?}", other),
    }
    assert!(matches!(manager.execute_command(&req), CommandStep::Open(_)));
    assert!(matches!(manager.advance(&req, Event::Opened), CommandStep::Write { .. }));
    assert!(matches!(manager.advance(&req, Event::Written), CommandStep::Read { .. }));
    match manager.advance(&req, Event::ReadTimedOut) {
        CommandStep::Finished(Err(BridgeError::Timeout(m))) => {
            assert_eq!(m, "No response from device in 1000 ms")
        }
        other => panic!("unexpected: {:?}", other),
    }
}

#[test]
fn unsupported_protocol_fails_the_whole_load() {
    let mut bad = config();
    bad.mierniki.insert("m3".to_string(), miernik("INVALID_PROTOCOL", "X"));
    bad.devices.insert("odd".to_string(), device("Odd", "h1", "m3", true));
    match DeviceManager::from_config(bad) {
        Err(BridgeError::ConfigurationError(m)) => {
            assert!(m.contains("Unsupported protocol"));
            assert_eq!(m, "Unsupported protocol: INVALID_PROTOCOL");
        }
        other => panic!("unexpected: {:?}", other),
    }
}

#[test]
fn missing_host_or_miernik_fails_the_load() {
    let mut bad = config();
    bad.devices.insert("lost".to_string(), device("Lost", "h9", "m1", true));
    match DeviceManager::from_config(bad) {
        Err(BridgeError::ConfigurationError(m)) => {
            assert_eq!(m, "Host 'h9' not found for device 'lost'")
        }
        other => panic!("unexpected: {:?}", other),
    }
    let mut bad = config();
    bad.devices.insert("lost".to_string(), device("Lost", "h1", "m9", true));
    match DeviceManager::from_config(bad) {
        Err(BridgeError::ConfigurationError(m)) => {
            assert_eq!(m, "Miernik 'm9' not found for device 'lost'")
        }
        other => panic!("unexpected: {:?}", other),
    }
    // A disabled device is not resolved at all.
    let mut fine = config();
    fine.devices.insert("lost".to_string(), device("Lost", "h9", "m9", false));
    assert!(DeviceManager::from_config(fine).is_ok());
}

#[test]
fn save_and_delete_config() {
    let mut manager = DeviceManager::from_config(config()).unwrap();
    let dropped = manager.save_config("new_device", device("New Test Device", "h1", "m1", true)).unwrap();
    assert!(dropped.is_empty());
    assert_eq!(manager.get_config("new_device").unwrap().name, "New Test Device");
    assert_eq!(manager.list_configs().len(), 4);
    // Saved over a device with an adapter: its handle is to be dropped.
    let dropped = manager.save_config("tcp_scale", device("Renamed", "h1", "m1", true)).unwrap();
    assert_eq!(dropped, vec!["tcp_scale".to_string()]);
    match manager.execute_command(&request("tcp_scale", "readGross")) {
        CommandStep::Finished(Err(BridgeError::DeviceNotFound(id))) => assert_eq!(id, "tcp_scale"),
        other => panic!("unexpected: {:?}", other),
    }
    let dropped = manager.delete_config("serial_scale").unwrap();
    assert_eq!(dropped, vec!["serial_scale".to_string()]);
    assert!(manager.get_config("serial_scale").is_err());
    match manager.delete_config("nonexistent") {
        Err(BridgeError::DeviceNotFound(id)) => assert_eq!(id, "nonexistent"),
        other => panic!("unexpected: {:?}", other),
    }
    assert_eq!(manager.to_config().devices.len(), 3);
}

#[test]
fn reload_replaces_devices_and_plans_disconnect_before_connect() {
    let mut manager = DeviceManager::from_config(config()).unwrap();
    assert!(manager.finish_connect("serial_scale", OpenOutcome::Opened).is_ok());
    let mut next = config();
    next.devices.remove("tcp_scale");
    next.devices.insert("modified_device".to_string(), device("Modified Device", "h1", "m1", true));
    let plan = manager.reload_config(next).unwrap();
    assert_eq!(plan.disconnect, vec!["tcp_scale".to_string(), "serial_scale".to_string()]);
    // Until the old links are let go no new adapter is to be seen, and no
    // old adapter holds a link any more.
    let during: Vec<String> = manager.get_devices().into_iter().map(|d| d.0).collect();
    assert_eq!(during, vec!["tcp_scale".to_string(), "serial_scale".to_string()]);
    assert!(manager.get_config("modified_device").is_err());
    assert_eq!(manager.connect_all_devices().len(), 2);
    let connect: Vec<String> =
        manager.finish_reload(plan).into_iter().map(|(id, _)| id).collect();
    assert_eq!(connect, vec!["serial_scale".to_string(), "modified_device".to_string()]);
    let listed: Vec<String> = manager.get_devices().into_iter().map(|d| d.0).collect();
    assert_eq!(listed, vec!["serial_scale".to_string(), "modified_device".to_string()]);
    assert!(manager.get_config("tcp_scale").is_err());
    assert_eq!(manager.get_config("modified_device").unwrap().name, "Modified Device");
}

#[test]
fn failed_reload_changes_nothing() {
    let mut manager = DeviceManager::from_config(config()).unwrap();
    let mut bad = config();
    bad.devices.insert("lost".to_string(), device("Lost", "h9", "m1", true));
    assert!(matches!(manager.reload_config(bad), Err(BridgeError::ConfigurationError(_))));
    assert_eq!(manager.list_configs().len(), 3);
    assert_eq!(manager.get_devices().len(), 2);
}

#[test]
fn connect_and_disconnect_all() {
    let mut manager = DeviceManager::from_config(config()).unwrap();
    let to_open = manager.connect_all_devices();
    assert_eq!(to_open.len(), 2);
    assert!(manager.finish_connect("serial_scale", OpenOutcome::Opened).is_ok());
    match manager.finish_connect("tcp_scale", OpenOutcome::Failed("refused".to_string())) {
        Err(BridgeError::ConnectionError(m)) => {
            assert_eq!(m, "Failed to connect: refused")
        }
        other => panic!("unexpected: {:?}", other),
    }
    match manager.finish_connect("tcp_scale", OpenOutcome::TimedOut) {
        Err(BridgeError::Timeout(m)) => assert_eq!(m, "Connection timeout after 1000ms"),
        other => panic!("unexpected: {:?}", other),
    }
    match manager.finish_connect("ghost", OpenOutcome::Opened) {
        Err(BridgeError::DeviceNotFound(id)) => assert_eq!(id, "ghost"),
        other => panic!("unexpected: {:?}", other),
    }
    let still: Vec<String> = manager.connect_all_devices().into_iter().map(|d| d.0).collect();
    assert_eq!(still, vec!["tcp_scale".to_string()]);
    let dropped = manager.disconnect_all_devices();
    assert_eq!(dropped, vec!["tcp_scale".to_string(), "serial_scale".to_string()]);
    assert_eq!(manager.connect_all_devices().len(), 2);
    // Disconnecting again is harmless.
    assert_eq!(manager.disconnect_all_devices().len(), 2);
}

#[test]
fn hosts_and_mierniki_can_be_saved_and_deleted() {
    let mut manager = DeviceManager::empty();
    assert!(manager.get_devices().is_empty());
    assert!(manager
        .save_host(
            "h",
            HostConfig {
                name: "n".to_string(),
                connection: ConnectionConfig::Tcp { host: "x".to_string(), port: 1 },
                timeout_ms: 5,
                enabled: true,
            },
        )
        .is_ok());
    assert_eq!(manager.get_host("h").unwrap().timeout_ms, 5);
    assert!(manager.save_miernik("m", miernik("RINCMD", "1")).is_ok());
    assert_eq!(manager.get_miernik("m").unwrap().protocol, "RINCMD");
    assert!(manager.delete_host("h").is_ok());
    assert!(matches!(manager.delete_host("h"), Err(BridgeError::DeviceNotFound(_))));
    assert!(manager.delete_miernik("m").is_ok());
    assert!(matches!(manager.delete_miernik("m"), Err(BridgeError::DeviceNotFound(_))));
}
