//! Preview frames decoded from the recording.

use vstd::prelude::*;
use std::path::PathBuf;
use crate::export::ffmpeg::{arg_texts, push_arg, push_owned_arg, size_string, size_text};
use crate::text::{decimal, push_char, push_decimal, push_zero_padded, zero_padded};

verus! {

/// One decoded RGBA frame.
#[derive(Debug, Clone, PartialEq, Eq)]
pub struct PreviewFrame {
    pub data: Vec<u8>,
    pub width: u32,
    pub height: u32,
    pub timestamp_ms: u64,
}

impl PreviewFrame {
    /// Bytes of an RGBA frame of this size: `width * height * 4`.
    pub fn expected_size(&self) -> (n: usize)
        requires
            self.width * self.height * 4 <= u32::MAX,
        ensures
            n == self.width * self.height * 4,
    {
        (self.width * self.height * 4) as usize
    }
}

/// Why decoded frame data was refused.
#[derive(Debug, Clone, Copy, PartialEq, Eq)]
pub struct FrameDataError {
    pub got: usize,
    pub expected: usize,
}

/// Accepts decoded data of exactly one `width` x `height` RGBA frame.
pub fn check_frame_data(len: usize, width: u32, height: u32) -> (r: Result<(), FrameDataError>)
    requires
        width * height * 4 <= u32::MAX,
    ensures
        r == (if len == width * height * 4 {
            Ok::<(), FrameDataError>(())
        } else {
            Err(FrameDataError { got: len, expected: (width * height * 4) as usize })
        }),
{
    let expected = (width * height * 4) as usize;
    if len != expected {
        Err(FrameDataError { got: len, expected })
    } else {
        Ok(())
    }
}

/// What the preview shows.
pub struct PreviewState {
    pub current_frame: Option<PreviewFrame>,
    pub video_path: Option<PathBuf>,
    pub video_width: u32,
    pub video_height: u32,
}

impl Default for PreviewState {
    /// Nothing loaded, 1920x1080.
    fn default() -> (s: Self)
        ensures
            s.current_frame.is_none(),
            s.video_path.is_none(),
            s.video_width == 1920,
            s.video_height == 1080,
    {
        PreviewState { current_frame: None, video_path: None, video_width: 1920, video_height: 1080 }
    }
}

/// A time stamp in seconds with three decimals, `S.mmm`, as `ffmpeg -ss`
/// takes it.
pub open spec fn seek_text(ms: u64) -> Seq<char> {
    decimal((ms / 1000) as nat) + seq!['.'] + zero_padded((ms % 1000) as nat, 3)
}

/// The `ffmpeg` arguments before the input file: seek to the time stamp,
/// then the input option.
pub open spec fn extract_head(timestamp_ms: u64) -> Seq<Seq<char>> {
    seq!["-ss"@, seek_text(timestamp_ms), "-i"@]
}

/// The `ffmpeg` arguments after the input file: one frame of raw RGBA
/// scaled to `width` x `height`, to standard output.
pub open spec fn extract_tail(width: u32, height: u32) -> Seq<Seq<char>> {
    seq![
        "-frames:v"@,
        "1"@,
        "-f"@,
        "rawvideo"@,
        "-pix_fmt"@,
        "rgba"@,
        "-s"@,
        size_text(width, height),
        "pipe:1"@,
    ]
}

/// `S.mmm` of a time stamp in milliseconds.
pub fn seek_string(ms: u64) -> (s: String)
    ensures
        s@ == seek_text(ms),
{
    let mut s = String::new();
    push_decimal(&mut s, ms / 1000);
    push_char(&mut s, '.');
    push_zero_padded(&mut s, ms % 1000, 3);
    assert(s@ =~= seek_text(ms));
    s
}

/// The `ffmpeg` arguments that decode the frame at `timestamp_ms`: those
/// before the input file and those after it.
pub fn extract_frame_args(timestamp_ms: u64, width: u32, height: u32) -> (a: (
    Vec<String>,
    Vec<String>,
))
    ensures
        arg_texts(a.0@) == extract_head(timestamp_ms),
        arg_texts(a.1@) == extract_tail(width, height),
{
    let mut head: Vec<String> = Vec::new();
    push_arg(&mut head, "-ss");
    push_owned_arg(&mut head, seek_string(timestamp_ms));
    push_arg(&mut head, "-i");
    let mut tail: Vec<String> = Vec::new();
    push_arg(&mut tail, "-frames:v");
    push_arg(&mut tail, "1");
    push_arg(&mut tail, "-f");
    push_arg(&mut tail, "rawvideo");
    push_arg(&mut tail, "-pix_fmt");
    push_arg(&mut tail, "rgba");
    push_arg(&mut tail, "-s");
    push_owned_arg(&mut tail, size_string(width, height));
    push_arg(&mut tail, "pipe:1");
    assert(arg_texts(head@) =~= extract_head(timestamp_ms));
    assert(arg_texts(tail@) =~= extract_tail(width, height));
    (head, tail)
}

} // verus!
