use openrec::editor::preview::{
    check_frame_data, extract_frame_args, seek_string, FrameDataError, PreviewFrame, PreviewState,
};

#[test]
fn test_preview_frame_creation() {
    let frame = PreviewFrame {
        data: vec![0u8; 320 * 240 * 4],
        width: 320,
        height: 240,
        timestamp_ms: 1500,
    };
    assert_eq!(frame.width, 320);
    assert_eq!(frame.height, 240);
    assert_eq!(frame.timestamp_ms, 1500);
}

#[test]
fn test_frame_data_size() {
    let w = 640u32;
    let h = 480u32;
    let frame = PreviewFrame {
        data: vec![0u8; (w * h * 4) as usize],
        width: w,
        height: h,
        timestamp_ms: 0,
    };
    assert_eq!(frame.data.len(), frame.expected_size());
    assert_eq!(frame.expected_size(), (w * h * 4) as usize);
}

#[test]
fn test_preview_state_default() {
    let state = PreviewState::default();
    assert!(state.current_frame.is_none());
    assert!(state.video_path.is_none());
    assert_eq!(state.video_width, 1920);
    assert_eq!(state.video_height, 1080);
}

#[test]
fn frame_data_check() {
    assert_eq!(check_frame_data(320 * 240 * 4, 320, 240), Ok(()));
    assert_eq!(
        check_frame_data(5, 320, 240),
        Err(FrameDataError { got: 5, expected: 320 * 240 * 4 })
    );
}

#[test]
fn seek_text_matches_float_formatting() {
    for ms in [0u64, 5, 999, 1000, 1234, 61_050, 3_600_000, 123_456_789] {
        let secs = ms as f64 / 1000.0;
        assert_eq!(seek_string(ms), format!("{secs:.3}"));
    }
}

#[test]
fn extract_frame_arguments() {
    let (head, tail) = extract_frame_args(1500, 320, 240);
    assert_eq!(head, vec!["-ss", "1.500", "-i"]);
    assert_eq!(
        tail,
        vec!["-frames:v", "1", "-f", "rawvideo", "-pix_fmt", "rgba", "-s", "320x240", "pipe:1"]
    );
}
