use scaleit_bridge::decimal::Decimal;
use scaleit_bridge::models::weight::ScaleCommandRequest;
use scaleit_bridge::models::weight::WeightReading;

fn decimal(text: &str) -> Decimal {
    let chars: Vec<char> = text.chars().collect();
    Decimal::parse(&chars).unwrap()
}

fn number(d: &Decimal) -> f64 {
    d.to_string().parse::<f64>().unwrap()
}

#[test]
fn test_empty_device_id_rejection() {
    let request = ScaleCommandRequest {
        device_id: String::new(),
        command: "readGross".to_string(),
    };

    // This should be caught by validation
    assert!(request.device_id.is_empty());
}

#[test]
fn test_invalid_port_ranges() {
    let invalid_tcp_configs = vec![
        ("127.0.0.1", 0),     // Port too low
        ("127.0.0.1", 80),    // Reserved port
        ("127.0.0.1", 65536), // Port too high
    ];

    for (_host, port) in invalid_tcp_configs {
        // These would be invalid in a real system
        assert!(port == 0 || port < 1024 || port > 65535);
    }
}

#[test]
fn test_weight_consistency_rules() {
    let reading = WeightReading {
        gross_weight: decimal("100.0"),
        net_weight: decimal("150.0"), // Net > Gross (invalid)
        unit: "kg".to_string(),
        is_stable: true,
        tare_weight: None,
        status: None,
        timestamp: 0,
    };

    // This violates the physical constraint that net weight cannot exceed gross weight
    assert!(number(&reading.gross_weight) < number(&reading.net_weight));
}

#[test]
fn test_extreme_timeout_values() {
    let extreme_timeouts = vec![0, 1, 100000, u32::MAX];

    for timeout in extreme_timeouts {
        if timeout < 500 || timeout > 30000 {
            // These should be rejected by validation
            assert!(timeout < 500 || timeout > 30000);
        }
    }
}

#[test]
fn test_special_characters_in_device_names() {
    let problematic_names = vec![
        "Device\nWith\nNewlines",
        "Device\tWith\tTabs",
        "Device\0With\0Nulls",
        "Device\"With\"Quotes",
        "Device'With'Apostrophes",
        "Device<With>Angles",
        "Device&With&Ampersands",
    ];

    for name in problematic_names {
        // These should be sanitized or rejected
        let contains_control_chars = name.chars().any(|c| c.is_control());
        let contains_special_chars = name.chars().any(|c| "\"'<>&".contains(c));

        if contains_control_chars || contains_special_chars {
            println!("Problematic device name found: {}", name);
        }
    }
}
