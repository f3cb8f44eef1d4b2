use std::path::PathBuf;

use openrec::export::ffmpeg::{Codec, EncoderConfig};
use openrec::export::gif::{check_frame_size, FrameSizeMismatch, GifConfig};
use openrec::export::renderer::{
    crop_and_upscale, frame_times, should_skip_frame, zoom_region_at, ExportRenderer,
};
use openrec::project::persistence::{Project, TrimSegment, ZoomRegion};

#[test]
fn test_encoder_config_default() {
    let config = EncoderConfig::default();
    assert_eq!(config.width, 1920);
    assert_eq!(config.height, 1080);
    assert_eq!(config.fps, 60);
    assert_eq!(config.pixel_format, "bgra");
    assert!(config.bitrate.is_none());
    assert_eq!(config.output_path, PathBuf::from("output.mp4"));
}

#[test]
fn encoder_args_h264() {
    let config = EncoderConfig {
        output_path: PathBuf::from("out.mp4"),
        width: 320,
        height: 240,
        fps: 30,
        codec: Codec::H264,
        bitrate: None,
        pixel_format: "bgra".to_string(),
    };
    assert_eq!(
        config.ffmpeg_args(),
        vec![
            "-y", "-f", "rawvideo", "-pixel_format", "bgra", "-video_size", "320x240",
            "-framerate", "30", "-i", "pipe:0", "-c:v", "libx264", "-preset", "fast", "-crf",
            "23", "-pix_fmt", "yuv420p"
        ]
    );
}

#[test]
fn encoder_args_av1_with_bitrate() {
    let config = EncoderConfig {
        codec: Codec::AV1,
        bitrate: Some(4500),
        ..Default::default()
    };
    let args = config.ffmpeg_args();
    assert_eq!(
        &args[11..],
        &["-c:v", "libsvtav1", "-crf", "30", "-b:v", "4500k", "-pix_fmt", "yuv420p"]
    );
    assert_eq!(args[6], "1920x1080");
    assert_eq!(args[8], "60");
}

#[test]
fn test_gif_config_default() {
    let config = GifConfig::default();
    assert_eq!(config.width, 640);
    assert_eq!(config.height, 480);
    assert_eq!(config.fps, 15);
    assert_eq!(config.max_colors, 256);
    assert_eq!(config.pixel_format, "bgra");
    assert_eq!(config.output_path, PathBuf::from("output.gif"));
}

#[test]
fn gif_args_and_frame_size() {
    let config = GifConfig {
        width: 160,
        height: 120,
        fps: 20,
        max_colors: 128,
        ..Default::default()
    };
    let args = config.ffmpeg_args();
    assert_eq!(args[6], "160x120");
    assert_eq!(args[8], "20");
    assert_eq!(args[11], "-lavfi");
    assert_eq!(
        args[12],
        "fps=20,split[s0][s1];[s0]palettegen=max_colors=128[p];[s1][p]paletteuse=dither=bayer:bayer_scale=5"
    );
    assert_eq!(&args[13..], &["-loop", "0"]);
    assert_eq!(config.expected_frame_size(), 160 * 120 * 4);
    assert_eq!(check_frame_size(100, 160 * 120 * 4), Err(FrameSizeMismatch { got: 100, expected: 76800 }));
    assert_eq!(check_frame_size(76800, 76800), Ok(()));
}

#[test]
fn test_should_skip_frame() {
    let trims = vec![
        TrimSegment { start_ms: 0, end_ms: 500 },
        TrimSegment { start_ms: 2000, end_ms: 3000 },
    ];

    assert!(should_skip_frame(0, &trims));
    assert!(should_skip_frame(250, &trims));
    assert!(should_skip_frame(499, &trims));
    assert!(should_skip_frame(2000, &trims));
    assert!(should_skip_frame(2500, &trims));

    assert!(!should_skip_frame(500, &trims));
    assert!(!should_skip_frame(1000, &trims));
    assert!(!should_skip_frame(3000, &trims));
    assert!(!should_skip_frame(5000, &trims));
}

#[test]
fn test_should_skip_frame_no_trims() {
    let trims: Vec<TrimSegment> = vec![];
    assert!(!should_skip_frame(0, &trims));
    assert!(!should_skip_frame(1000, &trims));
    assert!(!should_skip_frame(999999, &trims));
}

#[test]
fn test_export_renderer_new() {
    let project = Project::new("Test".to_string(), PathBuf::from("/tmp/test.mp4"), 5000);
    let renderer = ExportRenderer::new(&project, 1920, 1080, 60);

    assert_eq!(renderer.output_width(), 1920);
    assert_eq!(renderer.output_height(), 1080);
    assert_eq!(renderer.output_fps(), 60);
    assert_eq!(renderer.total_duration_ms(), 5000);
    assert!(renderer.trims().is_empty());
    assert_eq!(renderer.zoom_at(0), None);
    assert_eq!(renderer.source_video(), &PathBuf::from("/tmp/test.mp4"));
}

#[test]
fn frame_times_skip_trims() {
    let trims = vec![TrimSegment { start_ms: 0, end_ms: 200 }];
    assert_eq!(frame_times(1000, 10, &trims), vec![200, 300, 400, 500, 600, 700, 800, 900]);
    assert_eq!(frame_times(0, 5000, &trims), Vec::<u64>::new());
    assert_eq!(frame_times(1000, 3, &[]), vec![0, 333, 666, 999]);
    assert_eq!(frame_times(250, 3, &[]), vec![0]);
}

#[test]
fn zoom_region_first_match() {
    let a = ZoomRegion { start_ms: 100, end_ms: 500, level: 2.0f32.to_bits(), focus_x: 0, focus_y: 0 };
    let b = ZoomRegion { start_ms: 300, end_ms: 900, level: 1.5f32.to_bits(), focus_x: 0, focus_y: 0 };
    let regions = vec![a, b];
    assert_eq!(zoom_region_at(&regions, 50), None);
    assert_eq!(zoom_region_at(&regions, 400), Some(a));
    assert_eq!(zoom_region_at(&regions, 500), Some(b));
    assert_eq!(zoom_region_at(&regions, 900), None);
}

#[test]
fn crop_full_frame_is_identity() {
    let w = 4u32;
    let h = 4u32;
    let frame: Vec<u8> = (0..w * h * 4).map(|i| (i % 256) as u8).collect();
    assert_eq!(crop_and_upscale(&frame, w, h, 0, 0, w, h), frame);
}

#[test]
fn crop_center_doubles_pixels() {
    let w = 8u32;
    let h = 8u32;
    let mut frame = vec![0u8; (w * h * 4) as usize];
    for y in 0..h {
        for x in 0..w {
            let idx = ((y * w + x) * 4) as usize;
            frame[idx] = x as u8;
            frame[idx + 1] = y as u8;
            frame[idx + 3] = 255;
        }
    }
    // zoom 2x around the centre: crop 4x4 at (2, 2)
    let out = crop_and_upscale(&frame, w, h, 2, 2, 4, 4);
    assert_eq!(out.len(), frame.len());
    assert_ne!(out, frame);
    // output pixel (5, 3) samples source (2 + 5*4/8, 2 + 3*4/8) = (4, 3)
    let idx = ((3 * w + 5) * 4) as usize;
    assert_eq!(&out[idx..idx + 4], &[4, 3, 0, 255]);
}

#[test]
fn crop_past_short_frame_reads_zero() {
    let frame = vec![9u8; 8];
    let out = crop_and_upscale(&frame, 2, 2, 0, 0, 2, 2);
    assert_eq!(out, vec![9, 9, 9, 9, 9, 9, 9, 9, 0, 0, 0, 0, 0, 0, 0, 0]);
}
