//! Formatting utilities: byte counts, durations, bars, decimal rendering.

use systrix::monitor::format_time_remaining;
use systrix::utils::{create_bar, format_bytes, format_duration, u64_to_string};

#[test]
fn test_format_bytes() {
    assert_eq!(format_bytes(0), "0 B");
    assert_eq!(format_bytes(512), "512 B");
    assert_eq!(format_bytes(1024), "1.0 KB");
    assert_eq!(format_bytes(1536), "1.5 KB");
    assert_eq!(format_bytes(1048576), "1.0 MB");
    assert_eq!(format_bytes(1073741824), "1.0 GB");
}

#[test]
fn test_format_bytes_large_units() {
    assert_eq!(format_bytes(1023), "1023 B");
    assert_eq!(format_bytes(1099511627776), "1.0 TB");
    assert_eq!(format_bytes(1125899906842624), "1.0 PB");
    assert_eq!(format_bytes(u64::MAX), "16383.9 PB");
}

#[test]
fn test_format_duration() {
    assert_eq!(format_duration(30), "30s");
    assert_eq!(format_duration(90), "1m 30s");
    assert_eq!(format_duration(3661), "1h 1m 1s");
    assert_eq!(format_duration(86400), "1d 0h 0m");
}

#[test]
fn test_create_bar() {
    assert_eq!(create_bar(0, 10), "░░░░░░░░░░");
    assert_eq!(create_bar(50, 10), "▇▇▇▇▇░░░░░");
    assert_eq!(create_bar(100, 10), "▇▇▇▇▇▇▇▇▇▇");
}

#[test]
fn test_create_bar_overfull() {
    assert_eq!(create_bar(250, 4), "▇▇▇▇");
    assert_eq!(create_bar(33, 3), "░░░");
}

#[test]
fn test_format_time_remaining() {
    assert_eq!(format_time_remaining(59), "0m");
    assert_eq!(format_time_remaining(60), "1m");
    assert_eq!(format_time_remaining(3600), "1h 0m");
    assert_eq!(format_time_remaining(5400), "1h 30m");
}

#[test]
fn test_u64_to_string() {
    assert_eq!(u64_to_string(0), "0");
    assert_eq!(u64_to_string(7), "7");
    assert_eq!(u64_to_string(1234567890), "1234567890");
    assert_eq!(u64_to_string(u64::MAX), "18446744073709551615");
}
