use hc_smarthome::alerts::SmarthomeAlert;

#[test]
fn test_roundtrip() {
    for alert in [
        SmarthomeAlert::BatteryLow,
        SmarthomeAlert::BatteryCritical,
        SmarthomeAlert::Unreachable,
        SmarthomeAlert::UpdateOverdue,
        SmarthomeAlert::ConfigError,
        SmarthomeAlert::SensorFault,
        SmarthomeAlert::Tamper,
        SmarthomeAlert::CommError,
    ] {
        let s = alert.as_str();
        let parsed = SmarthomeAlert::from_id(s).expect("should parse");
        assert_eq!(alert, parsed);
    }
}

#[test]
fn test_unknown_returns_none() {
    assert_eq!(SmarthomeAlert::from_id("custom-alert"), None);
    assert_eq!(SmarthomeAlert::from_id("battery-low"), None);
}
