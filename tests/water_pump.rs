use watering_drivers::water_pump::{
    clamp_power, ConfigError, MotorError, PinWrite, WaterPump, FULL_POWER, WATER_PUMP_MODEL,
};

fn pump_with_led() -> WaterPump {
    WaterPump::from_config(Some(12), Some(2)).unwrap()
}

fn pump_without_led() -> WaterPump {
    WaterPump::from_config(Some(12), None).unwrap()
}

#[test]
fn positive_power_drives_pins_high() {
    let pump = pump_with_led();
    assert_eq!(
        pump.set_power(1),
        vec![PinWrite { pin: 12, high: true }, PinWrite { pin: 2, high: true }]
    );
    assert_eq!(
        pump.set_power(500_000),
        vec![PinWrite { pin: 12, high: true }, PinWrite { pin: 2, high: true }]
    );
}

#[test]
fn zero_or_negative_power_drives_pins_low() {
    let pump = pump_with_led();
    let low = vec![PinWrite { pin: 12, high: false }, PinWrite { pin: 2, high: false }];
    assert_eq!(pump.set_power(0), low);
    assert_eq!(pump.set_power(-1), low);
    assert_eq!(pump.set_power(-FULL_POWER), low);
}

#[test]
fn power_beyond_full_acts_as_full() {
    let pump = pump_with_led();
    assert_eq!(pump.set_power(5 * FULL_POWER), pump.set_power(FULL_POWER));
    assert_eq!(pump.set_power(-5 * FULL_POWER), pump.set_power(-FULL_POWER));
    assert_eq!(pump.set_power(i64::MAX), pump.set_power(FULL_POWER));
    assert_eq!(pump.set_power(i64::MIN), pump.set_power(-FULL_POWER));
    assert!(pump.set_power(5 * FULL_POWER)[0].high);
    assert!(!pump.set_power(-5 * FULL_POWER)[0].high);
}

#[test]
fn clamp_power_limits_range() {
    assert_eq!(clamp_power(5_000_000), 1_000_000);
    assert_eq!(clamp_power(-5_000_000), -1_000_000);
    assert_eq!(clamp_power(250_000), 250_000);
    assert_eq!(clamp_power(-1), -1);
}

#[test]
fn stop_is_zero_power_and_low() {
    let pump = pump_with_led();
    assert_eq!(pump.stop(), pump.set_power(0));
    assert!(pump.stop().iter().all(|w| !w.high));
    let bare = pump_without_led();
    assert_eq!(bare.stop(), vec![PinWrite { pin: 12, high: false }]);
}

#[test]
fn position_and_go_for_are_unsupported() {
    let pump = pump_with_led();
    assert_eq!(pump.get_position(), Err(MotorError::PositionUnsupported));
    assert_eq!(pump.go_for(60_000_000, 2_000_000), Err(MotorError::GoForUnsupported));
    assert_eq!(pump.go_for(0, 0), Err(MotorError::GoForUnsupported));
    assert_eq!(pump.go_for(-1, i64::MAX), Err(MotorError::GoForUnsupported));
}

#[test]
fn properties_report_no_position() {
    assert!(!pump_with_led().get_properties().position_reporting);
}

#[test]
fn missing_pin_is_a_config_error() {
    match WaterPump::from_config(None, Some(2)) {
        Err(ConfigError::MissingAttribute(name)) => assert_eq!(name, "pin"),
        Ok(_) => panic!("a pump without a pin was built"),
    }
}

#[test]
fn missing_led_disables_led() {
    let pump = pump_without_led();
    assert_eq!(pump.pin, 12);
    assert_eq!(pump.led, None);
    assert_eq!(pump.set_power(FULL_POWER), vec![PinWrite { pin: 12, high: true }]);
    assert_eq!(pump.set_power(-FULL_POWER), vec![PinWrite { pin: 12, high: false }]);
}

#[test]
fn pump_status_is_empty() {
    assert!(pump_with_led().get_status().is_empty());
    assert!(pump_with_led().get_status().fields.is_empty());
}

#[test]
fn pump_model_name() {
    assert_eq!(WATER_PUMP_MODEL, "water_pump");
}
