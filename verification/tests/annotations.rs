use openrec::editor::annotations::{AnnotationManager, ArrowDirection};
use openrec::project::persistence::{Annotation, AnnotationKind};

fn make_manager() -> AnnotationManager {
    AnnotationManager::new(vec![])
}

#[test]
fn test_visible_at_empty() {
    let mgr = make_manager();
    assert!(mgr.visible_at(0).is_empty());
    assert!(mgr.visible_at(5000).is_empty());
}

#[test]
fn test_visible_at_in_range() {
    let mgr = AnnotationManager::new(vec![Annotation {
        kind: AnnotationKind::Text,
        start_ms: 1000,
        end_ms: 5000,
        x: 10.0f32.to_bits(),
        y: 20.0f32.to_bits(),
        content: "hello".into(),
    }]);
    assert_eq!(mgr.visible_at(1000).len(), 1);
    assert_eq!(mgr.visible_at(3000).len(), 1);
    assert_eq!(mgr.visible_at(4999).len(), 1);
}

#[test]
fn test_visible_at_out_of_range() {
    let mgr = AnnotationManager::new(vec![Annotation {
        kind: AnnotationKind::Text,
        start_ms: 1000,
        end_ms: 5000,
        x: 0.0f32.to_bits(),
        y: 0.0f32.to_bits(),
        content: String::new(),
    }]);
    assert!(mgr.visible_at(999).is_empty());
    assert!(mgr.visible_at(5000).is_empty());
    assert!(mgr.visible_at(6000).is_empty());
}

#[test]
fn test_add_text_annotation() {
    let mut mgr = make_manager();
    mgr.add_text(100.0f32.to_bits(), 200.0f32.to_bits(), "Test".into(), 0, 3000);

    assert_eq!(mgr.annotations.len(), 1);
    let a = &mgr.annotations[0];
    assert_eq!(a.kind, AnnotationKind::Text);
    assert_eq!(f32::from_bits(a.x), 100.0);
    assert_eq!(f32::from_bits(a.y), 200.0);
    assert_eq!(a.content, "Test");
    assert_eq!(a.start_ms, 0);
    assert_eq!(a.end_ms, 3000);
}

#[test]
fn test_add_arrow_annotation() {
    let mut mgr = make_manager();
    mgr.add_arrow(50.0f32.to_bits(), 60.0f32.to_bits(), ArrowDirection::UpRight, 1000, 2000);

    assert_eq!(mgr.annotations.len(), 1);
    let a = &mgr.annotations[0];
    assert_eq!(a.kind, AnnotationKind::Arrow);
    assert_eq!(f32::from_bits(a.x), 50.0);
    assert_eq!(f32::from_bits(a.y), 60.0);
    assert!(a.content.contains("UpRight"));
    assert_eq!(a.start_ms, 1000);
    assert_eq!(a.end_ms, 2000);
}

#[test]
fn test_remove_annotation() {
    let mut mgr = make_manager();
    mgr.add_text(0, 0, "A".into(), 0, 1000);
    mgr.add_text(0, 0, "B".into(), 1000, 2000);
    mgr.add_text(0, 0, "C".into(), 2000, 3000);

    mgr.remove(1);
    assert_eq!(mgr.annotations.len(), 2);
    assert_eq!(mgr.annotations[0].content, "A");
    assert_eq!(mgr.annotations[1].content, "C");

    mgr.remove(99);
    assert_eq!(mgr.annotations.len(), 2);
}

#[test]
fn test_move_annotation() {
    let mut mgr = make_manager();
    mgr.add_text(10.0f32.to_bits(), 20.0f32.to_bits(), "move me".into(), 0, 1000);

    mgr.move_annotation(0, 300.0f32.to_bits(), 400.0f32.to_bits());
    assert_eq!(f32::from_bits(mgr.annotations[0].x), 300.0);
    assert_eq!(f32::from_bits(mgr.annotations[0].y), 400.0);

    mgr.move_annotation(99, 0, 0);
}

#[test]
fn test_resize_time() {
    let mut mgr = make_manager();
    mgr.add_text(0, 0, "t".into(), 0, 1000);

    mgr.resize_time(0, 500, 3000);
    assert_eq!(mgr.annotations[0].start_ms, 500);
    assert_eq!(mgr.annotations[0].end_ms, 3000);
}

#[test]
fn visible_at_keeps_order() {
    let mut mgr = make_manager();
    mgr.add_text(0, 0, "A".into(), 0, 1000);
    mgr.add_text(0, 0, "B".into(), 2000, 3000);
    mgr.add_text(0, 0, "C".into(), 500, 2500);
    let shown: Vec<&str> = mgr.visible_at(800).iter().map(|a| a.content.as_str()).collect();
    assert_eq!(shown, vec!["A", "C"]);
    let shown: Vec<&str> = mgr.visible_at(2200).iter().map(|a| a.content.as_str()).collect();
    assert_eq!(shown, vec!["B", "C"]);
}

#[test]
fn arrow_direction_names() {
    assert_eq!(ArrowDirection::Up.name(), "Up");
    assert_eq!(ArrowDirection::DownLeft.name(), "DownLeft");
    assert_eq!(ArrowDirection::UpRight.name(), format!("{:?}", ArrowDirection::UpRight));
}

#[test]
fn added_annotation_shown_only_in_its_interval() {
    let mut mgr = AnnotationManager::new(vec![Annotation {
        kind: AnnotationKind::Text,
        start_ms: 0,
        end_ms: 10_000,
        x: 0,
        y: 0,
        content: "first".into(),
    }]);
    mgr.add_text(5, 6, "second".into(), 2000, 3000);
    let at = |t: u64| -> Vec<String> {
        mgr.visible_at(t).into_iter().map(|a| a.content.clone()).collect()
    };
    assert_eq!(at(1999), vec!["first"]);
    assert_eq!(at(2000), vec!["first", "second"]);
    assert_eq!(at(2999), vec!["first", "second"]);
    assert_eq!(at(3000), vec!["first"]);
}

#[test]
fn removing_the_added_annotation_restores() {
    let mut mgr = make_manager();
    mgr.add_text(1, 2, "a".into(), 0, 100);
    let before: Vec<Annotation> = mgr.annotations.clone();
    mgr.add_arrow(3, 4, ArrowDirection::Left, 10, 20);
    mgr.remove(mgr.annotations.len() - 1);
    assert_eq!(mgr.annotations, before);
}
