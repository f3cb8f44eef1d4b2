use openrec::capture::pipewire_capture::{chunk_range, frame_stride, PixelFormat, VideoFrame};

#[test]
fn video_frame_expected_size() {
    let frame = VideoFrame {
        width: 1920,
        height: 1080,
        stride: 1920 * 4,
        format: PixelFormat::BGRx,
        data: vec![0u8; 1920 * 4 * 1080],
        timestamp_ms: 12345,
    };
    assert_eq!(frame.expected_size(), 1920 * 4 * 1080);
    assert_eq!(frame.data.len(), frame.expected_size());
}

#[test]
fn video_frame_with_padding_stride() {
    let stride = 1920 * 4 + 64;
    let frame = VideoFrame {
        width: 1920,
        height: 1080,
        stride,
        format: PixelFormat::BGRA,
        data: vec![0u8; stride as usize * 1080],
        timestamp_ms: 0,
    };
    assert_eq!(frame.expected_size(), stride as usize * 1080);
}

#[test]
fn pixel_format_bytes_per_pixel() {
    assert_eq!(PixelFormat::BGRA.bytes_per_pixel(), 4);
    assert_eq!(PixelFormat::RGBA.bytes_per_pixel(), 4);
    assert_eq!(PixelFormat::BGRx.bytes_per_pixel(), 4);
}

#[test]
fn video_frame_data_integrity() {
    let width: u32 = 640;
    let height: u32 = 480;
    let stride = width * 4;
    let data = vec![0xABu8; stride as usize * height as usize];

    let frame = VideoFrame {
        width,
        height,
        stride,
        format: PixelFormat::RGBA,
        data: data.clone(),
        timestamp_ms: 999,
    };

    assert_eq!(frame.data.len(), (stride * height) as usize);
    assert_eq!(frame.data.len(), frame.expected_size());
    assert!(frame.data.iter().all(|&b| b == 0xAB));
}

#[test]
fn pixel_format_debug() {
    // All variants produce non-empty Debug output
    let bgra = format!("{:?}", PixelFormat::BGRA);
    let rgba = format!("{:?}", PixelFormat::RGBA);
    let bgrx = format!("{:?}", PixelFormat::BGRx);

    assert!(bgra.contains("BGRA"), "got: {bgra}");
    assert!(rgba.contains("RGBA"), "got: {rgba}");
    assert!(bgrx.contains("BGRx"), "got: {bgrx}");
}

#[test]
fn video_frame_timestamp() {
    let ts = 1_700_000_000_000u64; // realistic millisecond timestamp
    let frame = VideoFrame {
        width: 100,
        height: 100,
        stride: 400,
        format: PixelFormat::BGRx,
        data: vec![0u8; 400 * 100],
        timestamp_ms: ts,
    };
    assert_eq!(frame.timestamp_ms, ts);

    // Zero timestamp is also valid (e.g. relative timing)
    let frame_zero = VideoFrame {
        width: 1,
        height: 1,
        stride: 4,
        format: PixelFormat::BGRA,
        data: vec![0u8; 4],
        timestamp_ms: 0,
    };
    assert_eq!(frame_zero.timestamp_ms, 0);
}

#[test]
fn stride_falls_back_to_width() {
    assert_eq!(frame_stride(7744, 1920, PixelFormat::BGRx), 7744);
    assert_eq!(frame_stride(0, 1920, PixelFormat::BGRx), 7680);
}

#[test]
fn chunk_range_checks() {
    assert_eq!(chunk_range(0, 0, 100), None);
    assert_eq!(chunk_range(10, 90, 100), Some((10, 100)));
    assert_eq!(chunk_range(10, 91, 100), None);
}
