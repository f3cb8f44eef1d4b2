//! GIF export through an `ffmpeg` process: the settings, the command line
//! (one pass, palette generated and applied in one filter graph) and the
//! frame-size check.

use vstd::prelude::*;
use std::path::PathBuf;
use crate::config::{path_from, path_of};
use crate::export::ffmpeg::{
    arg_texts, decimal_string, push_arg, push_owned_arg, size_string, size_text,
};
use crate::text::{decimal, push_decimal};

verus! {

/// Settings of one GIF encode. The input is raw video of `pixel_format`.
#[derive(Debug, Clone)]
pub struct GifConfig {
    pub output_path: PathBuf,
    pub width: u32,
    pub height: u32,
    pub fps: u32,
    pub max_colors: u16,
    pub pixel_format: String,
}

impl Default for GifConfig {
    /// 640x480 at 15 fps, 256 colours, from BGRA into `output.gif`.
    fn default() -> (c: Self)
        ensures
            c.output_path == path_of("output.gif"@),
            c.width == 640,
            c.height == 480,
            c.fps == 15,
            c.max_colors == 256,
            c.pixel_format@ == "bgra"@,
    {
        GifConfig {
            output_path: path_from("output.gif"),
            width: 640,
            height: 480,
            fps: 15,
            max_colors: 256,
            pixel_format: String::from_str("bgra"),
        }
    }
}

/// The filter graph: resample to `fps`, split, build a palette of at most
/// `max_colors` colours from one copy and apply it to the other with Bayer
/// dithering.
pub open spec fn gif_filter(fps: u32, max_colors: u16) -> Seq<char> {
    "fps="@ + decimal(fps as nat) + ",split[s0][s1];[s0]palettegen=max_colors="@ + decimal(
        max_colors as nat,
    ) + "[p];[s1][p]paletteuse=dither=bayer:bayer_scale=5"@
}

/// The `ffmpeg` arguments before the output path.
pub open spec fn gif_args(c: GifConfig) -> Seq<Seq<char>> {
    seq![
        "-y"@,
        "-f"@,
        "rawvideo"@,
        "-pixel_format"@,
        c.pixel_format@,
        "-video_size"@,
        size_text(c.width, c.height),
        "-framerate"@,
        decimal(c.fps as nat),
        "-i"@,
        "pipe:0"@,
        "-lavfi"@,
        gif_filter(c.fps, c.max_colors),
        "-loop"@,
        "0"@,
    ]
}

/// A frame whose size is not that of the configured RGBA frames.
#[derive(Debug, Clone, Copy, PartialEq, Eq)]
pub struct FrameSizeMismatch {
    pub got: usize,
    pub expected: usize,
}

/// Accepts a frame of exactly `expected` bytes.
pub fn check_frame_size(got: usize, expected: usize) -> (r: Result<(), FrameSizeMismatch>)
    ensures
        r == (if got == expected {
            Ok::<(), FrameSizeMismatch>(())
        } else {
            Err(FrameSizeMismatch { got, expected })
        }),
{
    if got != expected {
        Err(FrameSizeMismatch { got, expected })
    } else {
        Ok(())
    }
}

impl GifConfig {
    /// The filter graph of this encode.
    pub fn filter(&self) -> (f: String)
        ensures
            f@ == gif_filter(self.fps, self.max_colors),
    {
        let mut f = String::from_str("fps=");
        push_decimal(&mut f, self.fps as u64);
        f.append(",split[s0][s1];[s0]palettegen=max_colors=");
        push_decimal(&mut f, self.max_colors as u64);
        f.append("[p];[s1][p]paletteuse=dither=bayer:bayer_scale=5");
        assert(f@ =~= gif_filter(self.fps, self.max_colors));
        f
    }

    /// The `ffmpeg` command-line arguments, except the output path, which
    /// comes last.
    pub fn ffmpeg_args(&self) -> (args: Vec<String>)
        ensures
            arg_texts(args@) == gif_args(*self),
    {
        let mut args: Vec<String> = Vec::new();
        push_arg(&mut args, "-y");
        push_arg(&mut args, "-f");
        push_arg(&mut args, "rawvideo");
        push_arg(&mut args, "-pixel_format");
        push_owned_arg(&mut args, self.pixel_format.clone());
        push_arg(&mut args, "-video_size");
        push_owned_arg(&mut args, size_string(self.width, self.height));
        push_arg(&mut args, "-framerate");
        push_owned_arg(&mut args, decimal_string(self.fps as u64));
        push_arg(&mut args, "-i");
        push_arg(&mut args, "pipe:0");
        push_arg(&mut args, "-lavfi");
        push_owned_arg(&mut args, self.filter());
        push_arg(&mut args, "-loop");
        push_arg(&mut args, "0");
        assert(arg_texts(args@) =~= gif_args(*self));
        args
    }

    /// Bytes of one RGBA frame of the configured size.
    pub fn expected_frame_size(&self) -> (n: usize)
        requires
            self.width * self.height * 4 <= u32::MAX,
        ensures
            n == self.width * self.height * 4,
    {
        assert(self.width * self.height * 4 <= u32::MAX);
        (self.width * self.height * 4) as usize
    }
}

/// The GIF encode reads raw frames of the configured pixel format, size
/// and rate from standard input, runs the palette filter graph for the
/// configured rate and colour count, and loops forever.
pub proof fn law_gif_args_follow_config(c: GifConfig)
    ensures
        ({
            let a = gif_args(c);
            &&& a.len() == 15
            &&& a[3] == "-pixel_format"@ && a[4] == c.pixel_format@
            &&& a[5] == "-video_size"@ && a[6] == decimal(c.width as nat) + seq!['x'] + decimal(
                c.height as nat,
            )
            &&& a[7] == "-framerate"@ && a[8] == decimal(c.fps as nat)
            &&& a[9] == "-i"@ && a[10] == "pipe:0"@
            &&& a[11] == "-lavfi"@ && a[12] == "fps="@ + decimal(c.fps as nat)
                + ",split[s0][s1];[s0]palettegen=max_colors="@ + decimal(c.max_colors as nat)
                + "[p];[s1][p]paletteuse=dither=bayer:bayer_scale=5"@
            &&& a[13] == "-loop"@ && a[14] == "0"@
        }),
{
}

/// Two GIF encodes that differ only in pixel format read their frames in
/// their own formats: the arguments differ exactly there.
pub proof fn law_gif_pixel_format_used(c: GifConfig, pixel_format: String)
    ensures
        gif_args(GifConfig { pixel_format, ..c }) == gif_args(c).update(4, pixel_format@),
{
    assert(gif_args(GifConfig { pixel_format, ..c }) =~= gif_args(c).update(4, pixel_format@));
}

} // verus!
