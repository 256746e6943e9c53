use fan_control::config::{Config, DEFAULT_OVER_TEMP_MILLI, DEFAULT_PIN};
use fan_control::parse::{extract_sensor_reading, parse_pin, parse_temp_milli};

#[test]
fn temp_whole_and_fraction() {
    assert_eq!(parse_temp_milli(b"43.0"), Some(43000));
    assert_eq!(parse_temp_milli(b"48.3"), Some(48300));
    assert_eq!(parse_temp_milli(b"48"), Some(48000));
    assert_eq!(parse_temp_milli(b"0.5"), Some(500));
    assert_eq!(parse_temp_milli(b"1.23"), Some(1230));
    assert_eq!(parse_temp_milli(b"1.234"), Some(1234));
    assert_eq!(parse_temp_milli(b"007"), Some(7000));
}

#[test]
fn temp_negative() {
    assert_eq!(parse_temp_milli(b"-5.25"), Some(-5250));
    assert_eq!(parse_temp_milli(b"-0.1"), Some(-100));
    assert_eq!(parse_temp_milli(b"-43"), Some(-43000));
}

#[test]
fn temp_malformed() {
    assert_eq!(parse_temp_milli(b""), None);
    assert_eq!(parse_temp_milli(b"."), None);
    assert_eq!(parse_temp_milli(b".5"), None);
    assert_eq!(parse_temp_milli(b"5."), None);
    assert_eq!(parse_temp_milli(b"4.8.3"), None);
    assert_eq!(parse_temp_milli(b"abc"), None);
    assert_eq!(parse_temp_milli(b"1.2345"), None);
    assert_eq!(parse_temp_milli(b"-"), None);
    assert_eq!(parse_temp_milli(b"--1"), None);
    assert_eq!(parse_temp_milli(b" 43.0"), None);
    assert_eq!(parse_temp_milli(b"43.0 "), None);
}

#[test]
fn temp_whole_part_cap() {
    assert_eq!(parse_temp_milli(b"1000000"), Some(1_000_000_000));
    assert_eq!(parse_temp_milli(b"1000000.999"), Some(1_000_000_999));
    assert_eq!(parse_temp_milli(b"1000001"), None);
    assert_eq!(parse_temp_milli(b"99999999999999999999"), None);
}

#[test]
fn sensor_report_extraction() {
    assert_eq!(extract_sensor_reading(b"temp=48.3'C"), Some(48300));
    assert_eq!(extract_sensor_reading(b"temp=43.0'C"), Some(43000));
    assert_eq!(extract_sensor_reading(b"temp=7'C"), Some(7000));
}

#[test]
fn sensor_report_too_short_or_garbled() {
    assert_eq!(extract_sensor_reading(b""), None);
    assert_eq!(extract_sensor_reading(b"temp="), None);
    assert_eq!(extract_sensor_reading(b"temp='C"), None);
    assert_eq!(extract_sensor_reading(b"temp=x'C"), None);
    assert_eq!(extract_sensor_reading(b"temperature"), None);
}

#[test]
fn pin_numbers() {
    assert_eq!(parse_pin(b"14"), Some(14));
    assert_eq!(parse_pin(b"0"), Some(0));
    assert_eq!(parse_pin(b"18446744073709551615"), Some(u64::MAX));
}

#[test]
fn pin_malformed_or_overflowing() {
    assert_eq!(parse_pin(b""), None);
    assert_eq!(parse_pin(b"x"), None);
    assert_eq!(parse_pin(b"1 4"), None);
    assert_eq!(parse_pin(b"-1"), None);
    assert_eq!(parse_pin(b"18446744073709551616"), None);
}

#[test]
fn config_defaults() {
    let c = Config::from_args(None, None);
    assert_eq!(c.over_temp_milli, DEFAULT_OVER_TEMP_MILLI);
    assert_eq!(c.over_temp_milli, 43000);
    assert_eq!(c.pin, DEFAULT_PIN);
    assert_eq!(c.pin, 14);
}

#[test]
fn config_fallback_on_unreadable_arguments() {
    let c = Config::from_args(Some(b"warm"), Some(b"gpio14"));
    assert_eq!(c.over_temp_milli, 43000);
    assert_eq!(c.pin, 14);
}

#[test]
fn config_parsed_arguments() {
    let c = Config::from_args(Some(b"50.5"), Some(b"18"));
    assert_eq!(c.over_temp_milli, 50500);
    assert_eq!(c.pin, 18);
}
