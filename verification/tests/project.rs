use std::path::PathBuf;

use openrec::project::persistence::{Project, ZoomRegion};

#[test]
fn test_project_new() {
    let project = Project::new("Test Recording".to_string(), PathBuf::from("/tmp/video.mp4"), 5000);

    assert!(!project.id.is_nil());
    assert_eq!(project.name, "Test Recording");
    assert_eq!(project.source_video, PathBuf::from("/tmp/video.mp4"));
    assert_eq!(project.duration_ms, 5000);
    assert!(project.cursor_data.is_empty());
    assert!(project.zoom_regions.is_empty());
    assert!(project.annotations.is_empty());
    assert!(project.trim_segments.is_empty());
    assert!(!project.created_at.is_empty());
    assert_eq!(project.created_at, project.updated_at);
}

#[test]
fn projects_get_distinct_ids() {
    let a = Project::new("A".to_string(), PathBuf::from("a.mp4"), 1);
    let b = Project::new("B".to_string(), PathBuf::from("b.mp4"), 1);
    assert_ne!(a.id, b.id);
    assert!(a.speed_segments.is_empty());
}

#[test]
fn float_fields_compare_as_floats() {
    let z = |level: f32| ZoomRegion {
        start_ms: 0,
        end_ms: 10,
        level: level.to_bits(),
        focus_x: 0.5f32.to_bits(),
        focus_y: 0.5f32.to_bits(),
    };
    assert_eq!(z(0.0), z(-0.0));
    assert_ne!(z(f32::NAN), z(f32::NAN));
    assert_eq!(z(2.0), z(2.0));
    assert_ne!(z(2.0), z(2.5));
}
