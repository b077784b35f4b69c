use scaleit_bridge::error::BridgeError;
use scaleit_bridge::models::device::ConnectionConfig;
use scaleit_bridge::models::legacy_device::LegacyDeviceConfig;
use scaleit_bridge::text_map::TextMap;

#[test]
fn test_error_types() {
    let error = BridgeError::DeviceNotFound("test_device".to_string());
    assert!(error.to_string().contains("Device not found: test_device"));

    let error = BridgeError::ConnectionError("connection failed".to_string());
    assert!(error
        .to_string()
        .contains("Connection error: connection failed"));
}

#[test]
fn test_device_config_creation() {
    let mut commands = TextMap::new();
    commands.insert("readGross".to_string(), "20050026".to_string());
    commands.insert("readNet".to_string(), "20050025".to_string());

    let config = LegacyDeviceConfig {
        name: "Test Scale".to_string(),
        manufacturer: "Test Manufacturer".to_string(),
        model: "Test Model".to_string(),
        protocol: "RINCMD".to_string(),
        connection: ConnectionConfig::Tcp {
            host: "192.168.1.100".to_string(),
            port: 4001,
        },
        timeout_ms: 5000,
        commands,
        enabled: true,
    };

    assert_eq!(config.name, "Test Scale");
    assert_eq!(config.manufacturer, "Test Manufacturer");
    assert_eq!(config.model, "Test Model");
    assert_eq!(config.protocol, "RINCMD");
    assert!(config.enabled);
    assert_eq!(config.commands.len(), 2);
}
