use openrec::editor::speed::{SpeedManager, SpeedSegment, Stretch, NORMAL_SPEED};

#[test]
fn test_speed_segment_creation() {
    let seg = SpeedSegment {
        start_ms: 1000,
        end_ms: 3000,
        speed: 2.0f32.to_bits(),
    };
    assert_eq!(seg.start_ms, 1000);
    assert_eq!(seg.end_ms, 3000);
    assert_eq!(f32::from_bits(seg.speed), 2.0);
}

#[test]
fn test_add_segment() {
    let mut mgr = SpeedManager::new();
    mgr.add_segment(1000, 3000, 2.0f32.to_bits());
    assert_eq!(mgr.segments.len(), 1);
    assert_eq!(f32::from_bits(mgr.segments[0].speed), 2.0);

    mgr.add_segment(5000, 6000, 0.1f32.to_bits());
    assert_eq!(f32::from_bits(mgr.segments[1].speed), 0.25);

    mgr.add_segment(7000, 8000, 10.0f32.to_bits());
    assert_eq!(f32::from_bits(mgr.segments[2].speed), 4.0);
}

#[test]
fn test_remove_segment() {
    let mut mgr = SpeedManager::new();
    mgr.add_segment(0, 1000, 2.0f32.to_bits());
    mgr.add_segment(2000, 3000, 0.5f32.to_bits());
    assert_eq!(mgr.segments.len(), 2);

    mgr.remove_segment(0);
    assert_eq!(mgr.segments.len(), 1);
    assert_eq!(mgr.segments[0].start_ms, 2000);

    mgr.remove_segment(99);
    assert_eq!(mgr.segments.len(), 1);
}

#[test]
fn test_speed_at() {
    let mut mgr = SpeedManager::new();
    mgr.add_segment(1000, 3000, 2.0f32.to_bits());
    mgr.add_segment(5000, 7000, 0.5f32.to_bits());

    let at = |ms| f32::from_bits(mgr.speed_at(ms));
    assert_eq!(at(0), 1.0);
    assert_eq!(at(500), 1.0);
    assert_eq!(at(1000), 2.0);
    assert_eq!(at(2000), 2.0);
    assert_eq!(at(2999), 2.0);
    assert_eq!(at(3000), 1.0);
    assert_eq!(at(5000), 0.5);
    assert_eq!(at(6999), 0.5);
    assert_eq!(at(7000), 1.0);
    assert_eq!(at(99999), 1.0);
}

#[test]
fn sorted_segments_are_stable() {
    let mut mgr = SpeedManager::new();
    mgr.add_segment(5000, 6000, 2.0f32.to_bits());
    mgr.add_segment(1000, 2000, 0.5f32.to_bits());
    mgr.add_segment(5000, 5500, 3.0f32.to_bits());
    mgr.add_segment(0, 100, 1.5f32.to_bits());
    let starts: Vec<(u64, u64)> = mgr.sorted_segments().iter().map(|s| (s.start_ms, s.end_ms)).collect();
    assert_eq!(starts, vec![(0, 100), (1000, 2000), (5000, 6000), (5000, 5500)]);
}

#[test]
fn stretches_without_segments() {
    let mgr = SpeedManager::new();
    assert_eq!(mgr.playback_stretches(10000), vec![Stretch { len_ms: 10000, speed: None }]);
    assert_eq!(mgr.playback_stretches(0), vec![]);
    assert_eq!(mgr.speed_at(5000), NORMAL_SPEED);
}

#[test]
fn stretches_mixed_segments() {
    let two = 2.0f32.to_bits();
    let half = 0.5f32.to_bits();
    let mut mgr = SpeedManager::new();
    mgr.add_segment(10000, 15000, half);
    mgr.add_segment(5000, 10000, 2.0f32.to_bits());
    let _ = half;
    assert_eq!(
        mgr.playback_stretches(20000),
        vec![
            Stretch { len_ms: 5000, speed: None },
            Stretch { len_ms: 5000, speed: Some(two) },
            Stretch { len_ms: 5000, speed: Some(0.5f32.to_bits()) },
            Stretch { len_ms: 5000, speed: None },
        ]
    );
    assert_eq!(
        mgr.playback_stretches(7000),
        vec![Stretch { len_ms: 5000, speed: None }, Stretch { len_ms: 2000, speed: Some(two) }]
    );
}

#[test]
fn stretches_overlapping_segments() {
    let mut mgr = SpeedManager::new();
    mgr.add_segment(0, 10000, 2.0f32.to_bits());
    mgr.add_segment(5000, 12000, 0.5f32.to_bits());
    assert_eq!(
        mgr.playback_stretches(20000),
        vec![
            Stretch { len_ms: 10000, speed: Some(2.0f32.to_bits()) },
            Stretch { len_ms: 2000, speed: Some(0.5f32.to_bits()) },
            Stretch { len_ms: 8000, speed: None },
        ]
    );
}
