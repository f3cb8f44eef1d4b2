//! The recording pipeline's decisions: its states and their transitions,
//! the encoder settings it derives from the configuration and the first
//! frame, and the name of the recording file.

use vstd::prelude::*;
use crate::capture::pipewire_capture::PixelFormat;
use std::path::PathBuf;
use crate::config::{joined, path_join, VideoCodec};
use crate::export::ffmpeg::Codec;
use crate::text::{decimal, push_char, push_decimal, push_zero_padded, zero_padded};

verus! {

/// Where the pipeline is in its cycle.
#[derive(Debug, Clone, PartialEq, Eq)]
pub enum RecordingState {
    Idle,
    Starting,
    Recording,
    Stopping,
    Error(String),
}

impl RecordingState {
    /// An equal copy of the state.
    pub fn duplicate(&self) -> (copy: Self)
        ensures
            copy == *self,
    {
        match self {
            RecordingState::Idle => RecordingState::Idle,
            RecordingState::Starting => RecordingState::Starting,
            RecordingState::Recording => RecordingState::Recording,
            RecordingState::Stopping => RecordingState::Stopping,
            RecordingState::Error(msg) => RecordingState::Error(msg.clone()),
        }
    }
}

/// The encoder codec of a configured video codec.
pub fn codec_from_config(codec: &VideoCodec) -> (c: Codec)
    ensures
        c == match *codec {
            VideoCodec::H264 => Codec::H264,
            VideoCodec::H265 => Codec::H265,
            VideoCodec::AV1 => Codec::AV1,
        },
{
    match codec {
        VideoCodec::H264 => Codec::H264,
        VideoCodec::H265 => Codec::H265,
        VideoCodec::AV1 => Codec::AV1,
    }
}

/// `ffmpeg`'s name of a pixel layout.
pub open spec fn pixel_format_name(fmt: PixelFormat) -> Seq<char> {
    match fmt {
        PixelFormat::BGRA => "bgra"@,
        PixelFormat::RGBA => "rgba"@,
        PixelFormat::BGRx => "bgr0"@,
    }
}

/// `ffmpeg`'s name of a pixel layout: `bgra`, `rgba` or `bgr0`.
pub fn pixel_format_string(fmt: PixelFormat) -> (s: String)
    ensures
        s@ == pixel_format_name(fmt),
{
    match fmt {
        PixelFormat::BGRA => String::from_str("bgra"),
        PixelFormat::RGBA => String::from_str("rgba"),
        PixelFormat::BGRx => String::from_str("bgr0"),
    }
}

/// A year as `%Y` writes it: four digits within 0..=9999, otherwise with
/// a sign and at least four digits.
pub open spec fn year_text(year: i32) -> Seq<char> {
    if 0 <= year <= 9999 {
        zero_padded(year as nat, 4)
    } else if year > 9999 {
        seq!['+'] + zero_padded(year as nat, 4)
    } else {
        seq!['-'] + zero_padded((-year) as nat, 4)
    }
}

/// `openrec_YYYY-MM-DD_HH-MM-SS.mp4` for a local date and time.
pub open spec fn recording_name(
    year: i32,
    month: u32,
    day: u32,
    hour: u32,
    minute: u32,
    second: u32,
) -> Seq<char> {
    "openrec_"@ + year_text(year) + seq!['-'] + zero_padded(month as nat, 2) + seq!['-']
        + zero_padded(day as nat, 2) + seq!['_'] + zero_padded(hour as nat, 2) + seq!['-']
        + zero_padded(minute as nat, 2) + seq!['-'] + zero_padded(second as nat, 2) + ".mp4"@
}

/// The file name of a recording started at the given local date and time.
pub fn recording_file_name(
    year: i32,
    month: u32,
    day: u32,
    hour: u32,
    minute: u32,
    second: u32,
) -> (name: String)
    ensures
        name@ == recording_name(year, month, day, hour, minute, second),
{
    let mut name = String::from_str("openrec_");
    if year >= 0 && year <= 9999 {
        push_zero_padded(&mut name, year as u64, 4);
    } else if year > 9999 {
        push_char(&mut name, '+');
        push_zero_padded(&mut name, year as u64, 4);
    } else {
        push_char(&mut name, '-');
        let magnitude: u64 = (0i64 - year as i64) as u64;
        push_zero_padded(&mut name, magnitude, 4);
    }
    push_char(&mut name, '-');
    push_zero_padded(&mut name, month as u64, 2);
    push_char(&mut name, '-');
    push_zero_padded(&mut name, day as u64, 2);
    push_char(&mut name, '_');
    push_zero_padded(&mut name, hour as u64, 2);
    push_char(&mut name, '-');
    push_zero_padded(&mut name, minute as u64, 2);
    push_char(&mut name, '-');
    push_zero_padded(&mut name, second as u64, 2);
    name.append(".mp4");
    assert(name@ =~= recording_name(year, month, day, hour, minute, second));
    name
}

/// The file of a recording started at the given local date and time, in
/// the directory `dir`.
pub fn recording_path(
    dir: &PathBuf,
    year: i32,
    month: u32,
    day: u32,
    hour: u32,
    minute: u32,
    second: u32,
) -> (p: PathBuf)
    ensures
        p == joined(*dir, recording_name(year, month, day, hour, minute, second)),
{
    let name = recording_file_name(year, month, day, hour, minute, second);
    path_join(dir, name.as_str())
}

/// A request that the pipeline's state does not allow.
#[derive(Debug, Clone, PartialEq, Eq)]
pub enum PipelineError {
    /// Starting needs the idle state.
    CannotStart(RecordingState),
    /// Stopping needs the recording state.
    CannotStop(RecordingState),
    /// The frame writer reported an error.
    WriterFailed(String),
    /// The frame writer panicked.
    WriterPanicked,
}

/// How the frame writer ended.
#[derive(Debug, Clone, PartialEq, Eq)]
pub enum WriterOutcome {
    Finished,
    Failed(String),
    Panicked,
}

/// What a start request answers and the state after it: from idle the
/// pipeline is starting; in any other state the request is refused with
/// that state and nothing changes.
pub open spec fn start_request(s: RecordingState) -> (Result<(), PipelineError>, RecordingState) {
    if s is Idle {
        (Ok(()), RecordingState::Starting)
    } else {
        (Err(PipelineError::CannotStart(s)), s)
    }
}

/// What a stop request answers and the state after it: while recording the
/// pipeline is stopping; in any other state the request is refused with
/// that state and nothing changes.
pub open spec fn stop_request(s: RecordingState) -> (Result<(), PipelineError>, RecordingState) {
    if s is Recording {
        (Ok(()), RecordingState::Stopping)
    } else {
        (Err(PipelineError::CannotStop(s)), s)
    }
}

/// The state machine of a recording: idle, starting, recording, stopping,
/// or an error reported by the writer.
pub struct RecordingControl {
    state: RecordingState,
}

impl RecordingControl {
    pub closed spec fn state_spec(&self) -> RecordingState {
        self.state
    }

    /// A fresh pipeline is idle.
    pub fn new() -> (c: Self)
        ensures
            c.state_spec() == RecordingState::Idle,
    {
        RecordingControl { state: RecordingState::Idle }
    }

    /// The current state.
    pub fn state(&self) -> (s: &RecordingState)
        ensures
            *s == self.state_spec(),
    {
        &self.state
    }

    /// A start request: allowed only when idle, and then the pipeline is starting.
    pub fn begin_start(&mut self) -> (r: Result<(), PipelineError>)
        ensures
            (r, final(self).state_spec()) == start_request(old(self).state_spec()),
    {
        match self.state {
            RecordingState::Idle => {
                self.state = RecordingState::Starting;
                Ok(())
            },
            _ => Err(PipelineError::CannotStart(self.state.duplicate())),
        }
    }

    /// Capture and encoder are running: the pipeline records.
    pub fn started(&mut self)
        requires
            old(self).state_spec() is Starting,
        ensures
            final(self).state_spec() == RecordingState::Recording,
    {
        self.state = RecordingState::Recording;
    }

    /// A stop request: allowed only while recording, and then the pipeline is stopping.
    pub fn begin_stop(&mut self) -> (r: Result<(), PipelineError>)
        ensures
            (r, final(self).state_spec()) == stop_request(old(self).state_spec()),
    {
        match self.state {
            RecordingState::Recording => {
                self.state = RecordingState::Stopping;
                Ok(())
            },
            _ => Err(PipelineError::CannotStop(self.state.duplicate())),
        }
    }

    /// The frame writer has ended: a clean finish keeps stopping; a failure
    /// or a panic puts the pipeline in the error state with its message.
    pub fn writer_ended(&mut self, outcome: WriterOutcome) -> (r: Result<(), PipelineError>)
        requires
            old(self).state_spec() is Stopping,
        ensures
            match outcome {
                WriterOutcome::Finished => r is Ok && final(self).state_spec()
                    == RecordingState::Stopping,
                WriterOutcome::Failed(msg) => r == Err::<(), PipelineError>(
                    PipelineError::WriterFailed(msg),
                ) && final(self).state_spec() == RecordingState::Error(msg),
                WriterOutcome::Panicked => r == Err::<(), PipelineError>(
                    PipelineError::WriterPanicked,
                ) && (final(self).state_spec() matches RecordingState::Error(m) && m@
                    == "writer thread panicked"@),
            },
    {
        match outcome {
            WriterOutcome::Finished => Ok(()),
            WriterOutcome::Failed(msg) => {
                self.state = RecordingState::Error(msg.clone());
                Err(PipelineError::WriterFailed(msg))
            },
            WriterOutcome::Panicked => {
                self.state = RecordingState::Error(String::from_str("writer thread panicked"));
                Err(PipelineError::WriterPanicked)
            },
        }
    }

    /// Everything is closed: the pipeline is idle again.
    pub fn stopped(&mut self)
        requires
            old(self).state_spec() is Stopping,
        ensures
            final(self).state_spec() == RecordingState::Idle,
    {
        self.state = RecordingState::Idle;
    }
}

/// A refused start or stop request names the state it was made in and
/// leaves that state as it was.
pub proof fn law_refused_request_keeps_state(s: RecordingState)
    ensures
        start_request(s).0 is Err ==> start_request(s).1 == s && start_request(s).0 == Err::<
            (),
            PipelineError,
        >(PipelineError::CannotStart(s)),
        stop_request(s).0 is Err ==> stop_request(s).1 == s && stop_request(s).0 == Err::<
            (),
            PipelineError,
        >(PipelineError::CannotStop(s)),
{
}

/// Of the two requests at most one is accepted in any state: only an idle
/// pipeline starts and only a recording one stops.
pub proof fn law_start_and_stop_exclusive(s: RecordingState)
    ensures
        !(start_request(s).0 is Ok && stop_request(s).0 is Ok),
        start_request(s).0 is Ok <==> s is Idle,
        stop_request(s).0 is Ok <==> s is Recording,
{
}

} // verus!
