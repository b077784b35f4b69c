use scaleit_bridge::decimal::Decimal;
use scaleit_bridge::miernik::error::MiernikError;
use scaleit_bridge::miernik::parsers::dini_reading_at;
use scaleit_bridge::miernik::parsers::parse_dini_ascii_response;
use scaleit_bridge::miernik::parsers::parse_dini_weight;
use scaleit_bridge::miernik::parsers::parse_rincmd_response;
use scaleit_bridge::miernik::parsers::rincmd_reading_at;
use scaleit_bridge::miernik::parsers::unit_or;

fn value(d: &Decimal) -> f64 {
    d.to_string().parse::<f64>().unwrap()
}

#[test]
fn rincmd_echo_gross() {
    let r = parse_rincmd_response("20050026+123.45kg").unwrap();
    assert_eq!(value(&r.gross_weight), 123.45);
    assert_eq!(value(&r.net_weight), 0.0);
    assert_eq!(r.unit, "kg");
    assert!(r.is_stable);
    assert!(r.tare_weight.is_none());
    assert!(r.status.is_none());
}

#[test]
fn rincmd_echo_net() {
    let r = parse_rincmd_response("20050025-23.5kg").unwrap();
    assert_eq!(value(&r.net_weight), -23.5);
    assert_eq!(value(&r.gross_weight), 0.0);
    assert!(r.is_stable);
}

#[test]
fn rincmd_echo_other_code_goes_to_net() {
    let r = rincmd_reading_at("20050099+1.5lb", 7).unwrap();
    assert_eq!(value(&r.net_weight), 1.5);
    assert_eq!(value(&r.gross_weight), 0.0);
    assert_eq!(r.unit, "lb");
    assert_eq!(r.timestamp, 7);
}

#[test]
fn rincmd_flagged_forms() {
    let g = parse_rincmd_response(": -23 kg G").unwrap();
    assert_eq!(value(&g.gross_weight), -23.0);
    assert_eq!(value(&g.net_weight), 0.0);
    assert!(g.is_stable);
    let n = parse_rincmd_response(": +123.45 kg N").unwrap();
    assert_eq!(value(&n.net_weight), 123.45);
    assert_eq!(value(&n.gross_weight), 0.0);
    let t = parse_rincmd_response(":0 kg T").unwrap();
    assert!(t.is_stable);
    assert_eq!(value(&t.gross_weight), 0.0);
    let z = parse_rincmd_response("junk: 0.0 g Z").unwrap();
    assert!(z.is_stable);
    assert_eq!(z.unit, "g");
}

#[test]
fn rincmd_free_form_stable_and_unstable() {
    let s = parse_rincmd_response("S -32.000 kg").unwrap();
    assert_eq!(value(&s.gross_weight), -32.0);
    assert_eq!(value(&s.net_weight), -32.0);
    assert!(s.is_stable);
    assert_eq!(s.unit, "kg");
    let u = parse_rincmd_response("U 00032.000 kg").unwrap();
    assert_eq!(value(&u.gross_weight), 32.0);
    assert!(!u.is_stable);
}

#[test]
fn rincmd_error_token() {
    match parse_rincmd_response("E") {
        Err(MiernikError::ProtocolError(m)) => assert_eq!(m, "Device returned error 'E'"),
        other => panic!("unexpected: {:?}", other),
    }
    match parse_rincmd_response("  E\r\n") {
        Err(MiernikError::ProtocolError(m)) => assert_eq!(m, "Device returned error 'E'"),
        other => panic!("unexpected: {:?}", other),
    }
}

#[test]
fn rincmd_empty_and_blank() {
    match parse_rincmd_response("") {
        Err(MiernikError::ProtocolError(m)) => assert_eq!(m, "Empty response from device"),
        other => panic!("unexpected: {:?}", other),
    }
    match parse_rincmd_response("   ") {
        Err(MiernikError::ProtocolError(m)) => assert_eq!(m, "Empty response from device"),
        other => panic!("unexpected: {:?}", other),
    }
}

#[test]
fn rincmd_no_number() {
    match parse_rincmd_response("S kg") {
        Err(MiernikError::ProtocolError(m)) => {
            assert_eq!(m, "Unexpected response format: 'S kg'")
        }
        other => panic!("unexpected: {:?}", other),
    }
}

#[test]
fn rincmd_hex_twos_complement() {
    let r = parse_rincmd_response("81050026:FFFFFFE9").unwrap();
    assert_eq!(value(&r.gross_weight), -23.0);
    assert_eq!(value(&r.net_weight), -23.0);
    assert_eq!(r.unit, "kg");
    let p = parse_rincmd_response("81050026:0000012A").unwrap();
    assert_eq!(value(&p.gross_weight), 298.0);
    let top = parse_rincmd_response("X:7FFFFFFF lb").unwrap();
    assert_eq!(value(&top.gross_weight), 2147483647.0);
    assert_eq!(top.unit, "lb");
    let low = parse_rincmd_response("X:8000000A").unwrap();
    assert_eq!(value(&low.gross_weight), -2147483638.0);
    let all = parse_rincmd_response("X:FFFFFFFF").unwrap();
    assert_eq!(value(&all.gross_weight), -1.0);
}

#[test]
fn rincmd_digits_after_colon_are_decimal() {
    let r = parse_rincmd_response("81050026:00000064").unwrap();
    assert_eq!(value(&r.gross_weight), 64.0);
    assert!(!r.is_stable);
}

#[test]
fn rincmd_hex_run_too_long() {
    match parse_rincmd_response("X:123456789A") {
        Err(MiernikError::ProtocolError(m)) => {
            assert_eq!(m, "Failed to parse weight '123456789A'")
        }
        other => panic!("unexpected: {:?}", other),
    }
}

#[test]
fn rincmd_zero_is_forced_stable() {
    let r = parse_rincmd_response("U 0.000 kg").unwrap();
    assert!(r.is_stable);
    let z = parse_rincmd_response("U -0.0").unwrap();
    assert!(z.is_stable);
    assert_eq!(z.unit, "kg");
}

#[test]
fn rincmd_unicode_minus_and_tabs() {
    let r = parse_rincmd_response("S\t\u{2212}12.5 kg").unwrap();
    assert_eq!(value(&r.gross_weight), -12.5);
    assert!(r.is_stable);
}

#[test]
fn rincmd_uses_text_after_last_colon() {
    let r = parse_rincmd_response("a:1 kg:S 7.5 lb").unwrap();
    assert_eq!(value(&r.gross_weight), 7.5);
    assert_eq!(r.unit, "lb");
}

#[test]
fn rincmd_non_ascii_digits_fail_to_parse() {
    match parse_rincmd_response("S \u{0663}\u{0664} kg") {
        Err(MiernikError::ProtocolError(m)) => {
            assert_eq!(m, "Failed to parse weight '\u{0663}\u{0664}'")
        }
        other => panic!("unexpected: {:?}", other),
    }
}

#[test]
fn dini_standard_and_unstable() {
    let (v, unit, stable) = parse_dini_weight("ST,GS,+00023.450kg").unwrap();
    assert_eq!(value(&v), 23.45);
    assert_eq!(unit, "kg");
    assert!(stable);
    let (v, unit, stable) = parse_dini_weight("US,NT,-12.5kg").unwrap();
    assert_eq!(value(&v), -12.5);
    assert_eq!(unit, "kg");
    assert!(!stable);
}

#[test]
fn dini_confirmation() {
    let r = parse_dini_ascii_response("OK").unwrap();
    assert_eq!(value(&r.gross_weight), 0.0);
    assert_eq!(value(&r.net_weight), 0.0);
    assert!(r.is_stable);
    assert_eq!(r.unit, "kg");
    let lower = parse_dini_ascii_response(" ok\r\n").unwrap();
    assert!(lower.is_stable);
}

#[test]
fn dini_blank_is_an_error() {
    match parse_dini_ascii_response("   ") {
        Err(MiernikError::ProtocolError(m)) => {
            assert_eq!(m, "Empty response from Dini Argeo device")
        }
        other => panic!("unexpected: {:?}", other),
    }
}

#[test]
fn dini_strict_form_is_stable() {
    let (v, unit, stable) = parse_dini_weight("+123.45 kg").unwrap();
    assert_eq!(value(&v), 123.45);
    assert_eq!(unit, "kg");
    assert!(stable);
    let (v, _, _) = parse_dini_weight("-  5.25lb").unwrap();
    assert_eq!(value(&v), -5.25);
}

#[test]
fn dini_unit_defaults_to_kg() {
    let (v, unit, stable) = parse_dini_weight("ST,GS,42").unwrap();
    assert_eq!(value(&v), 42.0);
    assert_eq!(unit, "kg");
    assert!(stable);
}

#[test]
fn dini_no_number() {
    match parse_dini_weight("ST,GS,kg") {
        Err(MiernikError::ProtocolError(m)) => {
            assert_eq!(m, "Could not find numeric value in Dini Argeo response: 'ST,GS,kg'")
        }
        other => panic!("unexpected: {:?}", other),
    }
}

#[test]
fn dini_reading_sets_both_weights() {
    let r = dini_reading_at("ST,GS,+00023.450kg", 99).unwrap();
    assert_eq!(value(&r.gross_weight), 23.45);
    assert_eq!(value(&r.net_weight), 23.45);
    assert_eq!(r.timestamp, 99);
}

#[test]
fn decimal_text_keeps_digits() {
    let chars: Vec<char> = "00032.000".chars().collect();
    let d = Decimal::parse(&chars).unwrap();
    assert_eq!(d.to_string(), "00032.000");
    assert!(!d.is_zero());
    let none: Vec<char> = "1.2.3".chars().collect();
    assert!(Decimal::parse(&none).is_none());
    let dot: Vec<char> = ".".chars().collect();
    assert!(Decimal::parse(&dot).is_none());
    assert_eq!(Decimal::from_i64(-23).to_string(), "-23");
    assert_eq!(Decimal::from_i64(i64::MIN).to_string(), "-9223372036854775808");
    assert_eq!(Decimal::zero().to_string(), "0");
}

#[test]
fn an_empty_unit_is_the_default_unit() {
    assert_eq!(unit_or(String::new()), "kg");
    assert_eq!(unit_or("lb".to_string()), "lb");
    assert_eq!(unit_or("%".to_string()), "%");
}

#[test]
fn readings_never_have_an_empty_unit() {
    for answer in ["20050026+123.45kg", ":-12.5 lb N", "S 17", "U 00032.000 kg", "X:0000000A"] {
        let reading = rincmd_reading_at(answer, 0).unwrap();
        assert!(!reading.unit.is_empty(), "{}", answer);
    }
    for answer in ["ST,GS,+00023.450kg", "OK", "12.5", "1.5 g"] {
        let reading = dini_reading_at(answer, 0).unwrap();
        assert!(!reading.unit.is_empty(), "{}", answer);
    }
    assert_eq!(rincmd_reading_at("S 17", 0).unwrap().unit, "kg");
}

#[test]
fn every_kind_of_whitespace_is_trimmed() {
    let blank = "\u{0009}\u{000B}\u{0020}\u{0085}\u{00A0}\u{1680}\u{2003}\u{2028}\u{202F}\u{205F}\u{3000}";
    match dini_reading_at(blank, 0) {
        Err(MiernikError::ProtocolError(m)) => {
            assert_eq!(m, "Empty response from Dini Argeo device")
        }
        other => panic!("unexpected: {:?}", other),
    }
    let padded = format!("{}ST,GS,+1.5kg{}", blank, blank);
    let reading = dini_reading_at(&padded, 0).unwrap();
    assert_eq!(value(&reading.gross_weight), 1.5);
    // The zero width space is no whitespace.
    assert!(dini_reading_at("\u{200B}", 0).is_err());
    match dini_reading_at("\u{200B}", 0) {
        Err(MiernikError::ProtocolError(m)) => assert!(m.starts_with("Could not find")),
        other => panic!("unexpected: {:?}", other),
    }
}
