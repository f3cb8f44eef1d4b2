use openrec::editor::timeline::{
    format_time_marker, marker_interval_ms, marker_times, PointerEvent, TimelineMessage,
    TimelineState,
};

#[test]
fn test_format_time_marker() {
    assert_eq!(format_time_marker(0), "0:00");
    assert_eq!(format_time_marker(1000), "0:01");
    assert_eq!(format_time_marker(5000), "0:05");
    assert_eq!(format_time_marker(60_000), "1:00");
    assert_eq!(format_time_marker(90_000), "1:30");
    assert_eq!(format_time_marker(600_000), "10:00");
    assert_eq!(format_time_marker(3_661_000), "61:01");
    // Sub-second precision is truncated
    assert_eq!(format_time_marker(1500), "0:01");
}

#[test]
fn marker_interval_thresholds() {
    assert_eq!(marker_interval_ms(10_000), 1_000);
    assert_eq!(marker_interval_ms(10_001), 5_000);
    assert_eq!(marker_interval_ms(60_000), 5_000);
    assert_eq!(marker_interval_ms(300_000), 15_000);
    assert_eq!(marker_interval_ms(300_001), 60_000);
}

#[test]
fn marker_times_exclude_start_and_end() {
    assert_eq!(marker_times(0), Vec::<u64>::new());
    assert_eq!(marker_times(3000), vec![1000, 2000]);
    assert_eq!(marker_times(3001), vec![1000, 2000, 3000]);
    assert_eq!(marker_times(20_000), vec![5000, 10_000, 15_000]);
}

#[test]
fn pointer_press_drag_release() {
    let mut state = TimelineState::new();
    assert!(!state.is_dragging());
    assert_eq!(state.handle_pointer(PointerEvent::Moved(Some(10))), None);
    assert_eq!(
        state.handle_pointer(PointerEvent::LeftPressed(Some(500))),
        Some(TimelineMessage::Seek(500))
    );
    assert!(state.is_dragging());
    assert_eq!(
        state.handle_pointer(PointerEvent::Moved(Some(700))),
        Some(TimelineMessage::DragMove(700))
    );
    assert_eq!(state.handle_pointer(PointerEvent::Moved(None)), None);
    assert_eq!(
        state.handle_pointer(PointerEvent::LeftReleased),
        Some(TimelineMessage::DragEnd)
    );
    assert!(!state.is_dragging());
    assert_eq!(state.handle_pointer(PointerEvent::LeftReleased), None);
    assert_eq!(state.handle_pointer(PointerEvent::LeftPressed(None)), None);
    assert!(!state.is_dragging());
}
