use rpi_fan::error::FanError;
use rpi_fan::override_file::{load, parse_config};
use rpi_fan::settings::{Overrides, Settings};

fn ld(text: &[u8]) -> Result<Settings, FanError> {
    load(Some(text))
}

fn assert_is_default(s: &Settings) {
    assert_eq!(s.gpio_path, b"/dev/gpiochip0".to_vec());
    assert_eq!(s.gpio_pin, 18);
    assert_eq!(s.temp_max, 40);
    assert_eq!(s.temp_path, b"/sys/class/thermal/thermal_zone0/temp".to_vec());
    assert_eq!(s.retry_interval_hot, 30);
    assert_eq!(s.retry_interval_cool, 120);
}

#[test]
fn no_override_file_yields_the_documented_defaults() {
    let s = load(None).unwrap();
    assert_is_default(&s);
}

#[test]
fn empty_override_file_yields_the_documented_defaults() {
    let s = ld(b"").unwrap();
    assert_is_default(&s);
}

#[test]
fn overriding_only_temp_max_keeps_every_other_default() {
    let s = ld(b"temp_max = 55").unwrap();
    assert_eq!(s.gpio_path, b"/dev/gpiochip0".to_vec());
    assert_eq!(s.gpio_pin, 18);
    assert_eq!(s.temp_max, 55);
    assert_eq!(s.temp_path, b"/sys/class/thermal/thermal_zone0/temp".to_vec());
    assert_eq!(s.retry_interval_hot, 30);
    assert_eq!(s.retry_interval_cool, 120);
}

#[test]
fn every_field_can_be_overridden() {
    let text = b"gpio_path = \"/dev/gpiochip1\"\n\
                 gpio_pin = 4\n\
                 temp_max = 60\n\
                 temp_path = /tmp/fake_temp\n\
                 retry_interval_hot = 5\n\
                 retry_interval_cool = 600\n";
    let s = ld(text).unwrap();
    assert_eq!(s.gpio_path, b"/dev/gpiochip1".to_vec());
    assert_eq!(s.gpio_pin, 4);
    assert_eq!(s.temp_max, 60);
    assert_eq!(s.temp_path, b"/tmp/fake_temp".to_vec());
    assert_eq!(s.retry_interval_hot, 5);
    assert_eq!(s.retry_interval_cool, 600);
}

#[test]
fn blank_lines_comments_and_unknown_keys_are_ignored() {
    let text = b"\n  \n# a comment\n   # another = comment\nunknown_key = 7\ntemp_max = 50\n";
    let s = ld(text).unwrap();
    assert_eq!(s.temp_max, 50);
    assert_eq!(s.gpio_pin, 18);
}

#[test]
fn a_line_without_equals_is_a_config_error() {
    assert_eq!(ld(b"temp_max\n").unwrap_err(), FanError::ConfigError);
}

#[test]
fn a_non_numeric_integer_field_is_a_config_error() {
    assert_eq!(ld(b"temp_max = warm\n").unwrap_err(), FanError::ConfigError);
    assert_eq!(ld(b"gpio_pin = \n").unwrap_err(), FanError::ConfigError);
    assert_eq!(ld(b"retry_interval_hot = -1\n").unwrap_err(), FanError::ConfigError);
}

#[test]
fn an_integer_field_too_large_for_its_type_is_a_config_error() {
    assert_eq!(ld(b"gpio_pin = 4294967296\n").unwrap_err(), FanError::ConfigError);
    assert_eq!(ld(b"temp_max = 4294967296\n").unwrap_err(), FanError::ConfigError);
    assert_eq!(ld(b"retry_interval_cool = 18446744073709551616\n").unwrap_err(), FanError::ConfigError);
    let s = ld(b"gpio_pin = 4294967295\n").unwrap();
    assert_eq!(s.gpio_pin, u32::MAX);
}

#[test]
fn the_first_malformed_line_fails_the_whole_file() {
    let text = b"temp_max = 50\nbroken line\ngpio_pin = 4\n";
    assert_eq!(ld(text).unwrap_err(), FanError::ConfigError);
}

#[test]
fn later_assignments_replace_earlier_ones() {
    let s = ld(b"temp_max = 50\ntemp_max = 70\n").unwrap();
    assert_eq!(s.temp_max, 70);
}

#[test]
fn string_values_keep_their_bytes_and_lose_one_quote_pair() {
    let s = ld(b"gpio_path = \"/dev/with space\"\n").unwrap();
    assert_eq!(s.gpio_path, b"/dev/with space".to_vec());
    let s2 = ld(b"temp_path = \"\"\n").unwrap();
    assert_eq!(s2.temp_path, b"".to_vec());
    let s3 = ld(b"temp_path = \"a\n").unwrap();
    assert_eq!(s3.temp_path, b"\"a".to_vec());
}

#[test]
fn keys_and_values_are_trimmed_around_the_equals_sign() {
    let s = ld(b"   temp_max   =   55   \n").unwrap();
    assert_eq!(s.temp_max, 55);
}

#[test]
fn parse_config_reports_which_fields_are_present() {
    let ov = parse_config(b"temp_max = 55").unwrap();
    assert_eq!(ov.temp_max, Some(55));
    assert_eq!(ov.gpio_pin, None);
    assert_eq!(ov.gpio_path, None);
    assert_eq!(ov.temp_path, None);
    assert_eq!(ov.retry_interval_hot, None);
    assert_eq!(ov.retry_interval_cool, None);
}

#[test]
fn merging_no_overrides_is_the_default_snapshot() {
    let s = Settings::merge(Overrides::none());
    assert_is_default(&s);
}
