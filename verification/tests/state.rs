use std::path::PathBuf;

use openrec::editor::speed::NORMAL_SPEED;
use openrec::editor::state::{EditorState, EditorTool, TimeSelection};
use openrec::project::persistence::{Project, ZoomRegion};

fn test_project() -> Project {
    Project::new("Test".to_string(), PathBuf::from("/tmp/test.mp4"), 10000)
}

#[test]
fn test_editor_state_new() {
    let state = EditorState::new(test_project());
    assert_eq!(state.playback.position_ms, 0);
    assert!(!state.playback.is_playing);
    assert_eq!(f32::from_bits(state.playback.playback_speed), 1.0);
    assert!(!state.playback.loop_enabled);
    assert_eq!(f32::from_bits(state.timeline.zoom_level), 1.0);
    assert_eq!(f32::from_bits(state.timeline.scroll_offset), 0.0);
    assert!(state.timeline.selection.is_none());
    assert_eq!(state.selected_tool, EditorTool::Select);
    assert_eq!(state.project.duration_ms, 10000);
}

#[test]
fn test_seek() {
    let mut state = EditorState::new(test_project());
    state.seek(5000);
    assert_eq!(state.playback.position_ms, 5000);

    state.seek(99999);
    assert_eq!(state.playback.position_ms, 10000);

    state.seek(0);
    assert_eq!(state.playback.position_ms, 0);
}

#[test]
fn test_toggle_playback() {
    let mut state = EditorState::new(test_project());
    assert!(!state.playback.is_playing);
    state.toggle_playback();
    assert!(state.playback.is_playing);
    state.toggle_playback();
    assert!(!state.playback.is_playing);
}

#[test]
fn test_set_speed() {
    let mut state = EditorState::new(test_project());

    state.set_speed(2.0f32.to_bits());
    assert_eq!(f32::from_bits(state.playback.playback_speed), 2.0);

    state.set_speed(0.1f32.to_bits());
    assert_eq!(f32::from_bits(state.playback.playback_speed), 0.25);

    state.set_speed(10.0f32.to_bits());
    assert_eq!(f32::from_bits(state.playback.playback_speed), 4.0);
}

#[test]
fn set_speed_matches_f32_clamp() {
    let mut state = EditorState::new(test_project());
    for v in [
        -1.0f32, -0.0, 0.0, 0.2499, 0.25, 1.0, 3.99, 4.0, 4.01, f32::INFINITY,
        f32::NEG_INFINITY, f32::MIN_POSITIVE, 1e-45,
    ] {
        state.set_speed(v.to_bits());
        assert_eq!(state.playback.playback_speed, v.clamp(0.25, 4.0).to_bits(), "{v}");
    }
    state.set_speed(f32::NAN.to_bits());
    assert!(f32::from_bits(state.playback.playback_speed).is_nan());
    assert_eq!(NORMAL_SPEED, 1.0f32.to_bits());
}

#[test]
fn test_add_trim() {
    let mut state = EditorState::new(test_project());
    assert!(state.project.trim_segments.is_empty());

    state.add_trim(1000, 2000);
    assert_eq!(state.project.trim_segments.len(), 1);
    assert_eq!(state.project.trim_segments[0].start_ms, 1000);
    assert_eq!(state.project.trim_segments[0].end_ms, 2000);

    state.add_trim(5000, 6000);
    assert_eq!(state.project.trim_segments.len(), 2);
}

#[test]
fn test_remove_trim() {
    let mut state = EditorState::new(test_project());
    state.add_trim(0, 500);
    state.add_trim(9000, 10000);
    assert_eq!(state.project.trim_segments.len(), 2);

    state.remove_trim(0);
    assert_eq!(state.project.trim_segments.len(), 1);
    assert_eq!(state.project.trim_segments[0].start_ms, 9000);

    state.remove_trim(99);
    assert_eq!(state.project.trim_segments.len(), 1);
}

#[test]
fn test_effective_duration() {
    let mut state = EditorState::new(test_project());
    assert_eq!(state.effective_duration_ms(), 10000);

    state.add_trim(0, 1000);
    assert_eq!(state.effective_duration_ms(), 9000);

    state.add_trim(5000, 7000);
    assert_eq!(state.effective_duration_ms(), 7000);
}

#[test]
fn effective_duration_saturates() {
    let mut state = EditorState::new(test_project());
    state.add_trim(0, 8000);
    state.add_trim(2000, 9000);
    state.add_trim(5000, 100);
    assert_eq!(state.effective_duration_ms(), 0);
}

#[test]
fn test_is_trimmed() {
    let mut state = EditorState::new(test_project());
    state.add_trim(1000, 3000);

    assert!(!state.is_trimmed(999));
    assert!(state.is_trimmed(1000));
    assert!(state.is_trimmed(2000));
    assert!(!state.is_trimmed(3000));
    assert!(!state.is_trimmed(5000));
}

#[test]
fn test_add_zoom_region() {
    let mut state = EditorState::new(test_project());
    assert!(state.project.zoom_regions.is_empty());

    state.add_zoom_region(ZoomRegion {
        start_ms: 1000,
        end_ms: 3000,
        level: 2.0f32.to_bits(),
        focus_x: 0.5f32.to_bits(),
        focus_y: 0.5f32.to_bits(),
    });

    assert_eq!(state.project.zoom_regions.len(), 1);
    assert_eq!(f32::from_bits(state.project.zoom_regions[0].level), 2.0);
}

#[test]
fn test_time_selection() {
    let mut state = EditorState::new(test_project());
    assert!(state.timeline.selection.is_none());

    state.timeline.selection = Some(TimeSelection {
        start_ms: 2000,
        end_ms: 5000,
    });

    let sel = state.timeline.selection.unwrap();
    assert_eq!(sel.start_ms, 2000);
    assert_eq!(sel.end_ms, 5000);
}

#[test]
fn test_editor_tool_variants() {
    assert_ne!(EditorTool::Select, EditorTool::Trim);
    assert_ne!(EditorTool::Zoom, EditorTool::Annotate);
    assert_eq!(EditorTool::Select, EditorTool::Select);
}

#[test]
fn effective_duration_counts_untrimmed_positions() {
    let mut state = EditorState::new(test_project());
    state.add_trim(0, 1000);
    state.add_trim(5000, 7000);
    state.add_trim(9500, 10000);
    let untrimmed = (0..state.project.duration_ms).filter(|&p| !state.is_trimmed(p)).count();
    assert_eq!(state.effective_duration_ms(), untrimmed as u64);
    assert_eq!(state.effective_duration_ms(), 6500);
}

#[test]
fn trim_edits_leave_rest_of_project() {
    let mut state = EditorState::new(test_project());
    let name = state.project.name.clone();
    let created = state.project.created_at.clone();
    state.add_trim(10, 20);
    state.add_zoom_region(ZoomRegion { start_ms: 0, end_ms: 5, level: 2.0f32.to_bits(), focus_x: 0, focus_y: 0 });
    state.remove_trim(0);
    assert!(state.project.trim_segments.is_empty());
    assert_eq!(state.project.zoom_regions.len(), 1);
    assert_eq!(state.project.name, name);
    assert_eq!(state.project.created_at, created);
    assert_eq!(state.project.duration_ms, 10000);
}
