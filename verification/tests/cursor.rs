use openrec::capture::cursor::{cursorpos_fields, CursorPosition};

#[test]
fn test_cursor_position_creation() {
    let pos = CursorPosition { x: 100.5f64.to_bits(), y: 200.0f64.to_bits(), timestamp_ms: 1234 };
    assert_eq!(f64::from_bits(pos.x), 100.5);
    assert_eq!(f64::from_bits(pos.y), 200.0);
    assert_eq!(pos.timestamp_ms, 1234);
}

#[test]
fn cursorpos_fields_splits_and_trims() {
    let (x, y) = cursorpos_fields("1920, 1080\n").unwrap();
    assert_eq!(x, "1920");
    assert_eq!(y, "1080");
}

#[test]
fn cursorpos_fields_without_spaces() {
    let (x, y) = cursorpos_fields("100,200").unwrap();
    assert_eq!(x, "100");
    assert_eq!(y, "200");
}

#[test]
fn cursorpos_fields_splits_at_first_comma() {
    let (x, y) = cursorpos_fields("  -5.5 ,3,4 ").unwrap();
    assert_eq!(x, "-5.5");
    assert_eq!(y, "3,4");
}

#[test]
fn cursorpos_fields_without_comma() {
    assert_eq!(cursorpos_fields("invalid"), None);
    assert_eq!(cursorpos_fields(""), None);
}

#[test]
fn cursorpos_fields_empty_parts() {
    let (x, y) = cursorpos_fields(",").unwrap();
    assert_eq!(x, "");
    assert_eq!(y, "");
}
