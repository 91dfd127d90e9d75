use rpi_fan::control::{cycle, decide, parse_temp, CycleAction, FanState};
use rpi_fan::error::FanError;
use rpi_fan::settings::Settings;

#[test]
fn hot_reading_sets_line_high_and_sleeps_hot_interval() {
    let s = Settings::defaults();
    let r = cycle(b"45000\n", &s).unwrap();
    assert_eq!(r, CycleAction { line_value: 1, sleep_secs: 30 });
}

#[test]
fn cool_reading_sets_line_low_and_sleeps_cool_interval() {
    let s = Settings::defaults();
    let r = cycle(b"39999\n", &s).unwrap();
    assert_eq!(r, CycleAction { line_value: 0, sleep_secs: 120 });
}

#[test]
fn boundary_reading_is_cool() {
    // Exactly threshold * 1000 must map to COOL, not HOT.
    assert_eq!(decide(40000, 40), FanState::Cool);
    assert_eq!(decide(40001, 40), FanState::Hot);
    assert_eq!(decide(39999, 40), FanState::Cool);
    let s = Settings::defaults();
    let r = cycle(b"40000\n", &s).unwrap();
    assert_eq!(r, CycleAction { line_value: 0, sleep_secs: 120 });
}

#[test]
fn zero_threshold_and_zero_reading() {
    assert_eq!(decide(0, 0), FanState::Cool);
    assert_eq!(decide(1, 0), FanState::Hot);
}

#[test]
fn non_numeric_reading_is_a_parse_error() {
    let s = Settings::defaults();
    assert_eq!(cycle(b"abc", &s), Err(FanError::ParseError));
    assert_eq!(parse_temp(b"abc"), Err(FanError::ParseError));
}

#[test]
fn empty_and_whitespace_only_readings_are_parse_errors() {
    assert_eq!(parse_temp(b""), Err(FanError::ParseError));
    assert_eq!(parse_temp(b"  \n"), Err(FanError::ParseError));
}

#[test]
fn negative_and_mixed_readings_are_parse_errors() {
    assert_eq!(parse_temp(b"-5\n"), Err(FanError::ParseError));
    assert_eq!(parse_temp(b"45 000\n"), Err(FanError::ParseError));
    assert_eq!(parse_temp(b"45000C\n"), Err(FanError::ParseError));
}

#[test]
fn reading_is_trimmed_before_parsing() {
    assert_eq!(parse_temp(b" \t45000 \r\n"), Ok(45000));
    assert_eq!(parse_temp(b"007"), Ok(7));
    assert_eq!(parse_temp(b"0"), Ok(0));
}

#[test]
fn reading_too_large_for_the_sensor_type_is_a_parse_error() {
    assert_eq!(parse_temp(b"4294967295"), Ok(u32::MAX));
    assert_eq!(parse_temp(b"4294967296"), Err(FanError::ParseError));
    assert_eq!(parse_temp(b"99999999999999999999999"), Err(FanError::ParseError));
}

#[test]
fn identical_input_gives_identical_decision() {
    // The controller is memoryless: no state drifts between cycles.
    let s = Settings::defaults();
    let first = cycle(b"45000\n", &s);
    let second = cycle(b"45000\n", &s);
    assert_eq!(first, second);
    let third = decide(12345, 40);
    let fourth = decide(12345, 40);
    assert_eq!(third, fourth);
}

#[test]
fn state_maps_to_line_value_and_interval() {
    let s = Settings::defaults();
    assert_eq!(FanState::Hot.line_value(), 1);
    assert_eq!(FanState::Cool.line_value(), 0);
    assert_eq!(FanState::Hot.sleep_secs(&s), 30);
    assert_eq!(FanState::Cool.sleep_secs(&s), 120);
}

#[test]
fn error_categories_have_names() {
    assert_eq!(FanError::ConfigError.describe(), "configuration error");
    assert_eq!(FanError::GpioError.describe(), "GPIO error");
    assert_eq!(FanError::IoError.describe(), "I/O error");
    assert_eq!(FanError::ParseError.describe(), "temperature parse error");
}
