use scaleit_bridge::error::BridgeError;
use scaleit_bridge::models::weight::ScaleCommandRequest;

#[test]
fn test_error_types_basic() {
    let error1 = BridgeError::DeviceNotFound("TEST_DEVICE".to_string());
    assert!(error1.to_string().contains("Device not found: TEST_DEVICE"));

    let error2 = BridgeError::ConnectionError("Connection failed".to_string());
    assert!(error2
        .to_string()
        .contains("Connection error: Connection failed"));

    let error3 = BridgeError::ConfigurationError("Invalid config".to_string());
    assert!(error3
        .to_string()
        .contains("Configuration error: Invalid config"));
}

#[test]
fn test_device_commands_validation() {
    let valid_commands = vec!["readGross", "readNet", "tare", "zero"];

    for command in valid_commands {
        let request = ScaleCommandRequest {
            device_id: "TEST_DEVICE".to_string(),
            command: command.to_string(),
        };

        assert!(!request.device_id.is_empty());
        assert!(!request.command.is_empty());
        assert_eq!(request.command, command);
    }
}

#[test]
fn test_regex_patterns() {
    let device_id_pattern =
        regex::Regex::new(r"^[A-Z][A-Z0-9_]{1,15}$").expect("Invalid regex pattern");

    assert!(device_id_pattern.is_match("C320"));
    assert!(device_id_pattern.is_match("DWF"));
    assert!(device_id_pattern.is_match("TEST_DEVICE_1"));

    assert!(!device_id_pattern.is_match(""));
    assert!(!device_id_pattern.is_match("c320")); // lowercase
    assert!(!device_id_pattern.is_match("123")); // starts with number
    assert!(!device_id_pattern.is_match("VERY_LONG_DEVICE_NAME_THAT_EXCEEDS_LIMIT"));
    // too long
}

#[test]
fn test_error_display_formatting() {
    let errors = vec![
        BridgeError::DeviceNotFound("C320".to_string()),
        BridgeError::ConnectionError("TCP timeout".to_string()),
        BridgeError::CommandError("Invalid command".to_string()),
        BridgeError::ConfigurationError("Missing field".to_string()),
        BridgeError::Timeout("Operation timed out".to_string()),
        BridgeError::ProtocolError("Unknown protocol".to_string()),
        BridgeError::InvalidCommand("Command not supported".to_string()),
        BridgeError::InternalServerError("Server error".to_string()),
        BridgeError::Unknown("Unknown error".to_string()),
    ];

    for error in errors {
        let error_string = error.to_string();
        assert!(!error_string.is_empty());
        assert!(error_string.len() > 5); // Should have meaningful content

        // Check that the error type is reflected in the message
        match error {
            BridgeError::DeviceNotFound(_) => assert!(error_string.contains("Device not found")),
            BridgeError::ConnectionError(_) => assert!(error_string.contains("Connection error")),
            BridgeError::CommandError(_) => {
                assert!(error_string.contains("Command execution error"))
            }
            BridgeError::ConfigurationError(_) => {
                assert!(error_string.contains("Configuration error"))
            }
            BridgeError::Timeout(_) => assert!(error_string.contains("Timeout error")),
            BridgeError::ProtocolError(_) => assert!(error_string.contains("Protocol error")),
            BridgeError::InvalidCommand(_) => assert!(error_string.contains("Invalid command")),
            BridgeError::InternalServerError(_) => {
                assert!(error_string.contains("Internal server error"))
            }
            BridgeError::Unknown(_) => assert!(error_string.contains("Unknown error")),
            BridgeError::IoError(_) => assert!(error_string.contains("IO error")),
            BridgeError::SerializationError(_) => {
                assert!(error_string.contains("Serialization error"))
            }
        }
    }
}

#[test]
fn every_error_kind_has_its_text() {
    assert_eq!(BridgeError::IoError("x".to_string()).to_string(), "I/O error: x");
    assert_eq!(
        BridgeError::SerializationError("x".to_string()).to_string(),
        "Serialization error: x"
    );
    assert_eq!(BridgeError::Timeout("x".to_string()).to_string(), "Timeout error: x");
    assert_eq!(
        BridgeError::InternalServerError("x".to_string()).to_string(),
        "Internal server error: x"
    );
}
