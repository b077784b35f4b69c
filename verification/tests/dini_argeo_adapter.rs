use scaleit_bridge::adapters::dini_argeo::DiniArgeoAsciiAdapter;
use scaleit_bridge::decimal::Decimal;
use scaleit_bridge::error::BridgeError;
use scaleit_bridge::models::device::Connection;
use scaleit_bridge::models::device::FlowControl;
use scaleit_bridge::models::device::Parity;
use scaleit_bridge::models::device::StopBits;
use scaleit_bridge::text_map::TextMap;

fn number(d: &Decimal) -> f64 {
    d.to_string().parse::<f64>().unwrap()
}

fn adapter_for_tests_serial() -> DiniArgeoAsciiAdapter {
    let connection = Connection::Serial {
        port: "COM1".to_string(),
        baud_rate: 9600,
        data_bits: 8,
        stop_bits: StopBits::One,
        parity: Parity::NoParity,
        flow_control: FlowControl::NoFlowControl,
        timeout_ms: 1000,
    };
    let mut commands = TextMap::new();
    commands.insert("readGross".to_string(), "READ".to_string());
    commands.insert("readNet".to_string(), "REXT".to_string());
    commands.insert("tare".to_string(), "TARE".to_string());
    commands.insert("zero".to_string(), "ZERO".to_string());

    DiniArgeoAsciiAdapter::new("test".to_string(), connection, commands).unwrap()
}

#[test]
fn parses_generic_pattern() {
    let adapter = adapter_for_tests_serial();
    let (value, unit, is_stable) = adapter
        .parse_weight_from_response("+123.45 kg")
        .unwrap();
    assert_eq!(number(&value), 123.45);
    assert_eq!(unit, "kg");
    assert!(is_stable);
}

#[test]
fn parses_standard_response() {
    let adapter = adapter_for_tests_serial();
    let (value, unit, is_stable) = adapter
        .parse_weight_from_response("ST,GS,+00023.450kg")
        .unwrap();
    assert_eq!(number(&value), 23.45);
    assert_eq!(unit, "kg");
    assert!(is_stable);
}

#[test]
fn parses_unstable_negative_response() {
    let adapter = adapter_for_tests_serial();
    let (value, unit, is_stable) = adapter.parse_weight_from_response("US,NT,-12.5kg").unwrap();
    assert_eq!(number(&value), -12.5);
    assert_eq!(unit, "kg");
    assert!(!is_stable);
}

#[test]
fn fails_on_empty_response() {
    let adapter = adapter_for_tests_serial();
    assert!(adapter.parse_weight_from_response("   ").is_err());
}

#[test]
fn dini_blank_is_a_protocol_error() {
    let adapter = adapter_for_tests_serial();
    match adapter.parse_weight_from_response("   ") {
        Err(BridgeError::ProtocolError(m)) => {
            assert_eq!(m, "Empty response from Dini Argeo device")
        }
        other => panic!("unexpected: {:?}", other),
    }
}

#[test]
fn dini_ok_is_a_stable_zero() {
    let adapter = adapter_for_tests_serial();
    let (value, unit, is_stable) = adapter.parse_weight_from_response("OK").unwrap();
    assert_eq!(number(&value), 0.0);
    assert_eq!(unit, "kg");
    assert!(is_stable);
}

#[test]
fn dini_format_command_appends_terminator() {
    let adapter = adapter_for_tests_serial();
    assert_eq!(adapter.format_command("  READ "), b"READ\r\n".to_vec());
    assert_eq!(adapter.format_command("   "), Vec::<u8>::new());
    assert_eq!(adapter.get_command_terminator(), "\r\n");
}

#[test]
fn dini_to_weight_reading_sets_both_weights() {
    let adapter = adapter_for_tests_serial();
    let (value, unit, is_stable) = adapter.parse_weight_from_response("ST,GS,7.5lb").unwrap();
    let reading = adapter.to_weight_reading_at(value, unit, is_stable, 12);
    assert_eq!(number(&reading.gross_weight), 7.5);
    assert_eq!(number(&reading.net_weight), 7.5);
    assert_eq!(reading.unit, "lb");
    assert_eq!(reading.timestamp, 12);
}
