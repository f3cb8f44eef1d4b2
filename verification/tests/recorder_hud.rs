use std::time::Duration;

use openrec::ui::recorder_hud::{format_clock, format_duration};

#[test]
fn test_format_duration_zero() {
    assert_eq!(format_duration(Duration::ZERO), "00:00");
}

#[test]
fn test_format_duration_seconds() {
    assert_eq!(format_duration(Duration::from_secs(45)), "00:45");
}

#[test]
fn test_format_duration_minutes() {
    assert_eq!(format_duration(Duration::from_secs(125)), "02:05");
}

#[test]
fn test_format_duration_hours() {
    assert_eq!(format_duration(Duration::from_secs(3661)), "1:01:01");
}

#[test]
fn format_duration_drops_fraction() {
    assert_eq!(format_duration(Duration::from_millis(59_999)), "00:59");
}

#[test]
fn format_clock_long_recordings() {
    assert_eq!(format_clock(3599), "59:59");
    assert_eq!(format_clock(3600), "1:00:00");
    assert_eq!(format_clock(36_000 * 10 + 61), "100:01:01");
}
