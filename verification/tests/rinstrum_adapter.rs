use scaleit_bridge::adapters::rinstrum::RinstrumC320Adapter;
use scaleit_bridge::decimal::Decimal;
use scaleit_bridge::models::device::Connection;
use scaleit_bridge::text_map::TextMap;

fn number(d: &Decimal) -> f64 {
    d.to_string().parse::<f64>().unwrap()
}

fn make_adapter_tcp() -> RinstrumC320Adapter {
    let conn = Connection::Tcp {
        host: "127.0.0.1".to_string(),
        port: 4001,
        timeout_ms: 1000,
    };
    let mut cmd = TextMap::new();
    cmd.insert("readGross".to_string(), "20050026".to_string());
    cmd.insert("readNet".to_string(), "20050025".to_string());
    cmd.insert("tare".to_string(), "21120008:0C".to_string());
    cmd.insert("zero".to_string(), "21120008:0B".to_string());
    RinstrumC320Adapter::new("test_device".to_string(), conn, cmd).unwrap()
}

#[test]
fn parses_pattern1_with_gross() {
    let a = make_adapter_tcp();
    let parsed = a.parse_rincmd_response("20050026+123.45kg").unwrap();
    assert!(parsed.is_stable);
    assert_eq!(parsed.unit, "kg");
    assert_eq!(number(&parsed.gross_weight), 123.45);
    assert_eq!(number(&parsed.net_weight), 0.0);
}

#[test]
fn parses_pattern1_with_net() {
    let a = make_adapter_tcp();
    let parsed = a.parse_rincmd_response("20050025-23.5kg").unwrap();
    assert!(parsed.is_stable);
    assert_eq!(parsed.unit, "kg");
    assert_eq!(number(&parsed.gross_weight), 0.0);
    assert_eq!(number(&parsed.net_weight), -23.5);
}

#[test]
fn parses_pattern2_with_gross() {
    let a = make_adapter_tcp();
    let parsed = a.parse_rincmd_response(": -23 kg G").unwrap();
    assert!(parsed.is_stable);
    assert_eq!(parsed.unit, "kg");
    assert_eq!(number(&parsed.gross_weight), -23.0);
    assert_eq!(number(&parsed.net_weight), 0.0);
}

#[test]
fn parses_pattern2_with_net() {
    let a = make_adapter_tcp();
    let parsed = a.parse_rincmd_response(": +123.45 kg N").unwrap();
    assert!(parsed.is_stable);
    assert_eq!(parsed.unit, "kg");
    assert_eq!(number(&parsed.gross_weight), 0.0);
    assert_eq!(number(&parsed.net_weight), 123.45);
}

#[test]
fn parses_negative_with_space_and_unit() {
    let a = make_adapter_tcp();
    let parsed = a.parse_rincmd_response("S -32.000 kg").unwrap();
    assert!(parsed.is_stable);
    assert_eq!(parsed.unit, "kg");
    assert_eq!(number(&parsed.gross_weight), -32.0);
}

#[test]
fn parses_unstable_positive() {
    let a = make_adapter_tcp();
    let parsed = a.parse_rincmd_response("U 00032.000 kg").unwrap();
    assert!(!parsed.is_stable);
    assert_eq!(parsed.unit, "kg");
    assert_eq!(number(&parsed.gross_weight), 32.0);
}

#[test]
fn returns_error_on_e() {
    let a = make_adapter_tcp();
    assert!(a.parse_rincmd_response("E").is_err());
}

#[test]
fn parses_negative_spaced_sign_and_flags() {
    let a = make_adapter_tcp();
    let raw = "81050026:-     23 kg G";
    let parsed = a.parse_rincmd_response(raw).unwrap();
    assert_eq!(number(&parsed.gross_weight), -23.0);
    assert_eq!(parsed.unit, "kg");
}
