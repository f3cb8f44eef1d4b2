use openrec::capture::cursor::CursorPosition;
use openrec::editor::zoom::{
    cursor_partition_point, locate_cursor, smoothing_window, zoom_phase, CursorLocation, ZoomPhase,
};

fn pos(ts: u64) -> CursorPosition {
    CursorPosition { x: 0, y: 0, timestamp_ms: ts }
}

#[test]
fn zoom_phases() {
    assert_eq!(zoom_phase(1000, 3000, 0), ZoomPhase::Outside);
    assert_eq!(zoom_phase(1000, 3000, 699), ZoomPhase::Outside);
    assert_eq!(zoom_phase(1000, 3000, 700), ZoomPhase::Entering(0));
    assert_eq!(zoom_phase(1000, 3000, 850), ZoomPhase::Entering(150));
    assert_eq!(zoom_phase(1000, 3000, 1000), ZoomPhase::Inside);
    assert_eq!(zoom_phase(1000, 3000, 3000), ZoomPhase::Inside);
    assert_eq!(zoom_phase(1000, 3000, 3300), ZoomPhase::Leaving(300));
    assert_eq!(zoom_phase(1000, 3000, 3301), ZoomPhase::Outside);
    assert_eq!(zoom_phase(100, 200, 50), ZoomPhase::Entering(50));
}

#[test]
fn partition_point_and_location() {
    let data = vec![pos(0), pos(100), pos(200)];
    assert_eq!(cursor_partition_point(&data, 50), 1);
    assert_eq!(cursor_partition_point(&data, 100), 2);
    assert_eq!(cursor_partition_point(&data, 999), 3);
    assert_eq!(locate_cursor(&[], 50), CursorLocation::Empty);
    assert_eq!(locate_cursor(&data, 0), CursorLocation::At(0));
    assert_eq!(locate_cursor(&data, 100), CursorLocation::Between { before: 1, after: 2 });
    assert_eq!(locate_cursor(&data, 50), CursorLocation::Between { before: 0, after: 1 });
    assert_eq!(locate_cursor(&data, 999), CursorLocation::At(2));
}

#[test]
fn smoothing_windows() {
    assert_eq!(smoothing_window(0, 3), (0, 0));
    assert_eq!(smoothing_window(3, 3), (0, 3));
    assert_eq!(smoothing_window(8, 10), (3, 8));
}
