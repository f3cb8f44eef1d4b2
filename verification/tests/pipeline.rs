use openrec::capture::pipeline::{
    codec_from_config, pixel_format_string, recording_file_name, recording_path, PipelineError, RecordingControl,
    RecordingState, WriterOutcome,
};
use openrec::capture::pipewire_capture::PixelFormat;
use openrec::config::VideoCodec;
use openrec::export::ffmpeg::Codec;

#[test]
fn test_recording_state_transitions() {
    let idle = RecordingState::Idle;
    let starting = RecordingState::Starting;
    let recording = RecordingState::Recording;
    let stopping = RecordingState::Stopping;
    let error = RecordingState::Error("test error".to_string());

    assert_eq!(idle, RecordingState::Idle);
    assert_eq!(starting, RecordingState::Starting);
    assert_eq!(recording, RecordingState::Recording);
    assert_eq!(stopping, RecordingState::Stopping);
    assert_eq!(error, RecordingState::Error("test error".to_string()));
    assert_ne!(idle, recording);
}

#[test]
fn test_codec_from_config() {
    assert!(matches!(codec_from_config(&VideoCodec::H264), Codec::H264));
    assert!(matches!(codec_from_config(&VideoCodec::H265), Codec::H265));
    assert!(matches!(codec_from_config(&VideoCodec::AV1), Codec::AV1));
}

#[test]
fn test_pixel_format_string() {
    assert_eq!(pixel_format_string(PixelFormat::BGRA), "bgra");
    assert_eq!(pixel_format_string(PixelFormat::RGBA), "rgba");
    assert_eq!(pixel_format_string(PixelFormat::BGRx), "bgr0");
}

#[test]
fn recording_file_name_format() {
    assert_eq!(
        recording_file_name(2025, 3, 7, 9, 5, 0),
        "openrec_2025-03-07_09-05-00.mp4"
    );
    assert_eq!(
        recording_file_name(12345, 12, 31, 23, 59, 60),
        "openrec_+12345-12-31_23-59-60.mp4"
    );
    assert_eq!(recording_file_name(-7, 1, 1, 0, 0, 0), "openrec_-0007-01-01_00-00-00.mp4");
    assert_eq!(recording_file_name(42, 1, 1, 0, 0, 0), "openrec_0042-01-01_00-00-00.mp4");
}

#[test]
fn control_full_cycle() {
    let mut control = RecordingControl::new();
    assert_eq!(control.state(), &RecordingState::Idle);
    assert_eq!(
        control.begin_stop(),
        Err(PipelineError::CannotStop(RecordingState::Idle))
    );
    assert_eq!(control.begin_start(), Ok(()));
    assert_eq!(control.state(), &RecordingState::Starting);
    assert_eq!(
        control.begin_start(),
        Err(PipelineError::CannotStart(RecordingState::Starting))
    );
    control.started();
    assert_eq!(control.state(), &RecordingState::Recording);
    assert_eq!(control.begin_stop(), Ok(()));
    assert_eq!(control.writer_ended(WriterOutcome::Finished), Ok(()));
    assert_eq!(control.state(), &RecordingState::Stopping);
    control.stopped();
    assert_eq!(control.state(), &RecordingState::Idle);
}

#[test]
fn control_writer_failures() {
    let mut control = RecordingControl::new();
    control.begin_start().unwrap();
    control.started();
    control.begin_stop().unwrap();
    assert_eq!(
        control.writer_ended(WriterOutcome::Failed("disk full".into())),
        Err(PipelineError::WriterFailed("disk full".into()))
    );
    assert_eq!(control.state(), &RecordingState::Error("disk full".into()));

    let mut control = RecordingControl::new();
    control.begin_start().unwrap();
    control.started();
    control.begin_stop().unwrap();
    assert_eq!(
        control.writer_ended(WriterOutcome::Panicked),
        Err(PipelineError::WriterPanicked)
    );
    assert_eq!(
        control.state(),
        &RecordingState::Error("writer thread panicked".into())
    );
}

#[test]
fn refused_requests_keep_state() {
    let mut control = RecordingControl::new();
    control.begin_start().unwrap();
    for _ in 0..2 {
        assert_eq!(
            control.begin_stop(),
            Err(PipelineError::CannotStop(RecordingState::Starting))
        );
        assert_eq!(control.state(), &RecordingState::Starting);
    }
    control.started();
    assert_eq!(
        control.begin_start(),
        Err(PipelineError::CannotStart(RecordingState::Recording))
    );
    assert_eq!(control.state(), &RecordingState::Recording);
}

#[test]
fn recording_path_in_directory() {
    let dir = std::path::PathBuf::from("/tmp/recordings");
    let p = recording_path(&dir, 2024, 3, 5, 14, 7, 9);
    assert_eq!(p, std::path::PathBuf::from("/tmp/recordings/openrec_2024-03-05_14-07-09.mp4"));
}
