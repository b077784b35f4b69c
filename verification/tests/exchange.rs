use scaleit_bridge::adapters::adapter::AdapterStep;
use scaleit_bridge::adapters::adapter_enum::DeviceAdapterEnum;
use scaleit_bridge::decimal::Decimal;
use scaleit_bridge::error::BridgeError;
use scaleit_bridge::host::commands::deadline_event;
use scaleit_bridge::host::commands::CommandExecutor;
use scaleit_bridge::host::commands::Event;
use scaleit_bridge::host::commands::Step;
use scaleit_bridge::host::connection::ConnectStep;
use scaleit_bridge::host::connection::Connection;
use scaleit_bridge::host::connection::DataBits;
use scaleit_bridge::host::connection::LinkState;
use scaleit_bridge::host::connection::OpenOutcome;
use scaleit_bridge::host::connection::OpenRequest;
use scaleit_bridge::host::error::HostError;
use scaleit_bridge::host::protocol::Protocol;
use scaleit_bridge::miernik::device::Device;
use scaleit_bridge::miernik::device::DeviceStep;
use scaleit_bridge::miernik::error::MiernikError;
use scaleit_bridge::models::device::FlowControl;
use scaleit_bridge::models::device::Parity;
use scaleit_bridge::models::device::StopBits;
use scaleit_bridge::text_map::TextMap;

fn number(d: &Decimal) -> f64 {
    d.to_string().parse::<f64>().unwrap()
}

fn serial(data_bits: u8) -> Connection {
    Connection::serial(
        "/dev/ttyUSB0".to_string(),
        19200,
        data_bits,
        StopBits::Two,
        Parity::Even,
        FlowControl::Hardware,
        250,
    )
}

#[test]
fn connect_is_idempotent_and_disconnect_never_fails() {
    let mut c = Connection::tcp("10.0.0.1".to_string(), 4001, 300);
    assert!(!c.is_connected());
    match c.connect_tcp().unwrap() {
        ConnectStep::Open(OpenRequest::Tcp { address, timeout_ms, no_delay }) => {
            assert_eq!(address, "10.0.0.1:4001");
            assert_eq!(timeout_ms, 300);
            assert!(no_delay);
        }
        other => panic!("unexpected: {:?}", other),
    }
    assert!(matches!(c.connect_serial(), Err(HostError::ConnectionError(_))));
    assert!(c.finish_connect(OpenOutcome::Opened).is_ok());
    assert!(c.is_connected());
    assert!(matches!(c.connect_tcp().unwrap(), ConnectStep::AlreadyConnected));
    assert!(c.disconnect().is_ok());
    assert!(c.disconnect().is_ok());
    assert!(!c.is_connected());
}

#[test]
fn connect_failures_are_distinct_kinds() {
    let mut c = Connection::tcp("h".to_string(), 1, 300);
    match c.finish_connect(OpenOutcome::TimedOut) {
        Err(HostError::Timeout(m)) => assert_eq!(m, "Connection timeout after 300ms"),
        other => panic!("unexpected: {:?}", other),
    }
    match c.finish_connect(OpenOutcome::Failed("refused".to_string())) {
        Err(HostError::ConnectionError(m)) => assert_eq!(m, "Failed to connect: refused"),
        other => panic!("unexpected: {:?}", other),
    }
    let mut s = serial(8);
    match s.finish_connect(OpenOutcome::Failed("busy".to_string())) {
        Err(HostError::ConnectionError(m)) => {
            assert_eq!(m, "Unable to open serial port /dev/ttyUSB0: busy")
        }
        other => panic!("unexpected: {:?}", other),
    }
    assert!(!s.is_connected());
    assert!(matches!(s.connect_tcp(), Err(HostError::ConnectionError(_))));
}

#[test]
fn serial_settings_are_passed_on_and_odd_data_bits_become_eight() {
    match serial(7).connect_serial().unwrap() {
        ConnectStep::Open(OpenRequest::Serial {
            port,
            baud_rate,
            data_bits,
            stop_bits,
            parity,
            flow_control,
            timeout_ms,
        }) => {
            assert_eq!(port, "/dev/ttyUSB0");
            assert_eq!(baud_rate, 19200);
            assert_eq!(data_bits, DataBits::Seven);
            assert_eq!(stop_bits, StopBits::Two);
            assert_eq!(parity, Parity::Even);
            assert_eq!(flow_control, FlowControl::Hardware);
            assert_eq!(timeout_ms, 250);
        }
        other => panic!("unexpected: {:?}", other),
    }
    match serial(9).connect().clone_request() {
        Some(DataBits::Eight) => {}
        other => panic!("unexpected: {:?}", other),
    }
}

trait RequestBits {
    fn clone_request(&self) -> Option<DataBits>;
}

impl RequestBits for ConnectStep {
    fn clone_request(&self) -> Option<DataBits> {
        match self {
            ConnectStep::Open(OpenRequest::Serial { data_bits, .. }) => Some(*data_bits),
            _ => None,
        }
    }
}

fn open_serial_executor() -> CommandExecutor {
    let mut connection = serial(8);
    connection.finish_connect(OpenOutcome::Opened).unwrap();
    CommandExecutor::new(connection, Protocol::DiniAscii)
}

#[test]
fn exchange_over_an_open_serial_port() {
    let mut ex = open_serial_executor();
    match ex.execute("READ") {
        Step::Write { bytes, timeout_ms } => {
            assert_eq!(bytes, b"READ\r\n".to_vec());
            assert_eq!(timeout_ms, 250);
        }
        other => panic!("unexpected: {:?}", other),
    }
    assert!(!ex.is_connected());
    assert!(ex.is_busy());
    assert!(matches!(ex.advance(Event::Written), Step::Read { timeout_ms: 250 }));
    assert!(matches!(ex.advance(Event::Received(Vec::new())), Step::Read { .. }));
    assert!(matches!(ex.advance(Event::Received(b"ST,GS,".to_vec())), Step::Read { .. }));
    match ex.advance(Event::Received(b"+1.5kg\r\n".to_vec())) {
        Step::Done(Ok(text)) => assert_eq!(text, "ST,GS,+1.5kg"),
        other => panic!("unexpected: {:?}", other),
    }
    assert!(ex.is_connected());
    assert!(!ex.is_busy());
}

#[test]
fn partial_answer_is_returned_on_read_timeout() {
    let mut ex = open_serial_executor();
    ex.execute("READ");
    ex.advance(Event::Written);
    ex.advance(Event::Received(b" 12.5 kg".to_vec()));
    match ex.advance(Event::ReadTimedOut) {
        Step::Done(Ok(text)) => assert_eq!(text, "12.5 kg"),
        other => panic!("unexpected: {:?}", other),
    }
    assert!(ex.is_connected());
}

#[test]
fn nothing_read_is_a_timeout_and_keeps_the_handle() {
    let mut ex = open_serial_executor();
    ex.execute("READ");
    ex.advance(Event::Written);
    match ex.advance(Event::ReadTimedOut) {
        Step::Done(Err(HostError::Timeout(m))) => assert_eq!(m, "No response from device in 250 ms"),
        other => panic!("unexpected: {:?}", other),
    }
    assert!(ex.is_connected());
    ex.execute("READ");
    ex.advance(Event::Written);
    match ex.advance(Event::DeadlineElapsed) {
        Step::Done(Err(HostError::Timeout(m))) => {
            assert_eq!(m, "Timed out waiting 250 ms for response")
        }
        other => panic!("unexpected: {:?}", other),
    }
    assert!(ex.is_connected());
    ex.execute("READ");
    match ex.advance(Event::WriteTimedOut) {
        Step::Done(Err(HostError::Timeout(m))) => assert_eq!(m, "Write timeout after 250ms"),
        other => panic!("unexpected: {:?}", other),
    }
    assert!(ex.is_connected());
}

#[test]
fn bytes_read_before_the_deadline_are_the_answer() {
    let mut ex = open_serial_executor();
    ex.execute("READ");
    ex.advance(Event::Written);
    assert!(matches!(ex.advance(Event::Received(b"  S 12.5".to_vec())), Step::Read { .. }));
    assert!(matches!(ex.advance(Event::Received(b" kg ".to_vec())), Step::Read { .. }));
    match ex.advance(Event::DeadlineElapsed) {
        Step::Done(Ok(text)) => assert_eq!(text, "S 12.5 kg"),
        other => panic!("unexpected: {:?}", other),
    }
    assert!(ex.is_connected());
}

#[test]
fn a_closed_link_ends_the_answer_with_what_has_come() {
    let mut ex = open_serial_executor();
    ex.execute("READ");
    ex.advance(Event::Written);
    assert!(matches!(ex.advance(Event::Received(b"7.25 kg".to_vec())), Step::Read { .. }));
    match ex.advance(Event::Closed) {
        Step::Done(Ok(text)) => assert_eq!(text, "7.25 kg"),
        other => panic!("unexpected: {:?}", other),
    }
    assert!(ex.is_connected());
    ex.execute("READ");
    ex.advance(Event::Written);
    match ex.advance(Event::Closed) {
        Step::Done(Ok(text)) => assert_eq!(text, ""),
        other => panic!("unexpected: {:?}", other),
    }
    // Out of turn it is refused like any other event.
    assert!(matches!(ex.advance(Event::Closed), Step::Done(Err(HostError::ProtocolError(_)))));
}

#[test]
fn the_deadline_is_reached_when_the_time_allowed_has_passed() {
    assert!(deadline_event(0, 250).is_none());
    assert!(deadline_event(249, 250).is_none());
    assert!(matches!(deadline_event(250, 250), Some(Event::DeadlineElapsed)));
    assert!(matches!(deadline_event(u64::MAX, 250), Some(Event::DeadlineElapsed)));
    assert!(matches!(deadline_event(0, 0), Some(Event::DeadlineElapsed)));
}

#[test]
fn io_errors_cost_the_handle() {
    let mut ex = open_serial_executor();
    ex.execute("READ");
    match ex.advance(Event::WriteFailed("broken pipe".to_string())) {
        Step::Done(Err(HostError::IoError(m))) => assert_eq!(m, "broken pipe"),
        other => panic!("unexpected: {:?}", other),
    }
    assert!(!ex.is_connected());
    assert_eq!(ex.connection.link, LinkState::Closed);
    // The next command opens the link again.
    assert!(matches!(ex.execute("READ"), Step::Open(OpenRequest::Serial { .. })));
    assert!(matches!(ex.advance(Event::Opened), Step::Write { .. }));
    ex.advance(Event::Written);
    match ex.advance(Event::ReadFailed("reset".to_string())) {
        Step::Done(Err(HostError::IoError(m))) => assert_eq!(m, "reset"),
        other => panic!("unexpected: {:?}", other),
    }
    assert!(!ex.is_connected());
}

#[test]
fn tcp_executor_opens_a_fresh_link_for_every_command() {
    let mut connection = Connection::tcp("h".to_string(), 9, 100);
    connection.finish_connect(OpenOutcome::Opened).unwrap();
    let mut ex = CommandExecutor::new(connection, Protocol::Rincmd);
    assert!(matches!(ex.execute("X"), Step::Open(OpenRequest::Tcp { .. })));
    assert!(!ex.is_connected());
    let mut pooled = {
        let mut connection = Connection::tcp("h".to_string(), 9, 100);
        connection.finish_connect(OpenOutcome::Opened).unwrap();
        CommandExecutor::pooled(connection, Protocol::Rincmd)
    };
    assert!(matches!(pooled.execute("X"), Step::Write { .. }));
}

#[test]
fn events_out_of_turn_change_nothing() {
    let mut ex = open_serial_executor();
    match ex.advance(Event::Written) {
        Step::Done(Err(HostError::ProtocolError(m))) => {
            assert_eq!(m, "Unexpected event for the state of the exchange")
        }
        other => panic!("unexpected: {:?}", other),
    }
    assert!(ex.is_connected());
    ex.execute("READ");
    assert!(matches!(ex.advance(Event::Opened), Step::Done(Err(HostError::ProtocolError(_)))));
    assert!(ex.is_busy());
    match ex.execute("READ") {
        Step::Done(Err(HostError::ConnectionError(m))) => {
            assert_eq!(m, "Exchange already in progress")
        }
        other => panic!("unexpected: {:?}", other),
    }
}

#[test]
fn device_looks_commands_up_in_lowercase() {
    let mut commands = TextMap::new();
    commands.insert("readgross".to_string(), "20050026".to_string());
    let mut device = Device::new(
        "d".to_string(),
        Connection::tcp("h".to_string(), 1, 10),
        Protocol::Custom("odd".to_string()),
        commands,
    );
    match device.execute_command("Nope") {
        DeviceStep::Finished(Err(MiernikError::InvalidCommand(m))) => {
            assert_eq!(m, "Unknown command: Nope")
        }
        other => panic!("unexpected: {:?}", other),
    }
    for name in ["readgross", "READGROSS", "ReadGross"] {
        assert!(matches!(device.execute_command(name), DeviceStep::Open(_)));
        assert!(matches!(device.advance(Event::Opened), DeviceStep::Write { .. }));
        assert!(matches!(device.advance(Event::Written), DeviceStep::Read { .. }));
        // A dialect that is not known is read as Rinstrum first, then as Dini Argeo.
        match device.advance(Event::Received(b"OK\n".to_vec())) {
            DeviceStep::Finished(Ok(reading)) => {
                assert!(reading.is_stable);
                assert_eq!(number(&reading.gross_weight), 0.0);
            }
            other => panic!("unexpected: {:?}", other),
        }
    }
}

#[test]
fn adapter_built_with_mixed_case_names_resolves_every_case() {
    let mut commands = TextMap::new();
    commands.insert("readGross".to_string(), "20050026".to_string());
    for name in ["readgross", "READGROSS", "ReadGross"] {
        let mut adapter = DeviceAdapterEnum::new_rinstrum(
            "d".to_string(),
            scaleit_bridge::models::device::Connection::Tcp {
                host: "h".to_string(),
                port: 1,
                timeout_ms: 10,
            },
            commands.copy(),
        )
        .unwrap();
        assert!(matches!(adapter.execute_command(name), AdapterStep::Open(_)));
        assert!(adapter.finish_connect(OpenOutcome::Opened).is_ok());
    }
}

#[test]
fn adapter_keeps_error_kinds_apart() {
    let mut commands = TextMap::new();
    commands.insert("readGross".to_string(), "READ".to_string());
    commands.insert("blank".to_string(), "   ".to_string());
    let descriptor = scaleit_bridge::models::device::Connection::Serial {
        port: "COM1".to_string(),
        baud_rate: 9600,
        data_bits: 8,
        stop_bits: StopBits::One,
        parity: Parity::NoParity,
        flow_control: FlowControl::NoFlowControl,
        timeout_ms: 1000,
    };
    let mut adapter =
        DeviceAdapterEnum::new_dini_argeo("d".to_string(), descriptor, commands).unwrap();
    assert!(!adapter.is_connected());
    match adapter.execute_command("nope") {
        AdapterStep::Finished(Err(BridgeError::InvalidCommand(m))) => {
            assert_eq!(m, "Unknown ASCII command: nope")
        }
        other => panic!("unexpected: {:?}", other),
    }
    match adapter.execute_command("blank") {
        AdapterStep::Finished(Err(BridgeError::InvalidCommand(m))) => {
            assert_eq!(m, "ASCII command cannot be empty")
        }
        other => panic!("unexpected: {:?}", other),
    }
    // Not connected: the command connects first.
    assert!(matches!(adapter.execute_command("readGross"), AdapterStep::Open(_)));
    match adapter.advance(Event::OpenTimedOut) {
        AdapterStep::Finished(Err(BridgeError::Timeout(m))) => {
            assert_eq!(m, "Connection timeout after 1000ms")
        }
        other => panic!("unexpected: {:?}", other),
    }
    assert!(matches!(adapter.connect().unwrap(), ConnectStep::Open(_)));
    assert!(adapter.finish_connect(OpenOutcome::Opened).is_ok());
    assert!(adapter.is_connected());
    assert!(matches!(adapter.connect().unwrap(), ConnectStep::AlreadyConnected));
    match adapter.execute_command("READGROSS") {
        AdapterStep::Write { bytes, .. } => assert_eq!(bytes, b"READ\r\n".to_vec()),
        other => panic!("unexpected: {:?}", other),
    }
    assert!(matches!(adapter.advance(Event::Written), AdapterStep::Read { .. }));
    match adapter.advance(Event::ReadFailed("gone".to_string())) {
        AdapterStep::Finished(Err(BridgeError::IoError(m))) => assert_eq!(m, "gone"),
        other => panic!("unexpected: {:?}", other),
    }
    assert!(!adapter.is_connected());
    assert!(adapter.disconnect().is_ok());
    assert!(adapter.disconnect().is_ok());
}

#[test]
fn adapter_refuses_data_bits_that_no_line_has() {
    let descriptor = scaleit_bridge::models::device::Connection::Serial {
        port: "COM1".to_string(),
        baud_rate: 9600,
        data_bits: 9,
        stop_bits: StopBits::One,
        parity: Parity::NoParity,
        flow_control: FlowControl::NoFlowControl,
        timeout_ms: 1000,
    };
    let mut commands = TextMap::new();
    commands.insert("tare".to_string(), "T".to_string());
    let mut adapter =
        DeviceAdapterEnum::new_rinstrum("d".to_string(), descriptor, commands).unwrap();
    match adapter.connect() {
        Err(BridgeError::ConfigurationError(m)) => {
            assert_eq!(m, "Invalid data bits: 9. Must be 5, 6, 7, or 8")
        }
        other => panic!("unexpected: {:?}", other),
    }
    assert!(matches!(
        adapter.execute_command("tare"),
        AdapterStep::Finished(Err(BridgeError::ConfigurationError(_)))
    ));
}
