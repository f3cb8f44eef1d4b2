//! Video encoding through an `ffmpeg` process: the encoder settings and
//! the command line they give.

use vstd::prelude::*;
use std::path::PathBuf;
use crate::config::{path_from, path_of};
use crate::text::{decimal, push_char, push_decimal};

verus! {

/// Output video codec.
#[derive(Debug, Clone, Copy, PartialEq, Eq)]
pub enum Codec {
    H264,
    H265,
    AV1,
}

/// Settings of one encode. The input is raw video of `pixel_format`.
#[derive(Debug, Clone)]
pub struct EncoderConfig {
    pub output_path: PathBuf,
    pub width: u32,
    pub height: u32,
    pub fps: u32,
    pub codec: Codec,
    pub bitrate: Option<u32>,
    pub pixel_format: String,
}

impl Default for EncoderConfig {
    /// 1920x1080 at 60 fps, H.264 from BGRA into `output.mp4`, no bitrate cap.
    fn default() -> (c: Self)
        ensures
            c.output_path == path_of("output.mp4"@),
            c.width == 1920,
            c.height == 1080,
            c.fps == 60,
            c.codec == Codec::H264,
            c.bitrate.is_none(),
            c.pixel_format@ == "bgra"@,
    {
        EncoderConfig {
            output_path: path_from("output.mp4"),
            width: 1920,
            height: 1080,
            fps: 60,
            codec: Codec::H264,
            bitrate: None,
            pixel_format: String::from_str("bgra"),
        }
    }
}

/// The encoder options of a codec.
pub open spec fn codec_args(codec: Codec) -> Seq<Seq<char>> {
    match codec {
        Codec::H264 => seq!["-c:v"@, "libx264"@, "-preset"@, "fast"@, "-crf"@, "23"@],
        Codec::H265 => seq!["-c:v"@, "libx265"@, "-preset"@, "fast"@, "-crf"@, "28"@],
        Codec::AV1 => seq!["-c:v"@, "libsvtav1"@, "-crf"@, "30"@],
    }
}

/// `WIDTHxHEIGHT`.
pub open spec fn size_text(width: u32, height: u32) -> Seq<char> {
    decimal(width as nat) + seq!['x'] + decimal(height as nat)
}

/// The `ffmpeg` arguments before the output path: raw frames of the given
/// pixel format, size and rate from standard input, the codec's options,
/// the bitrate in kbit/s if set, and 4:2:0 output.
pub open spec fn encoder_args(c: EncoderConfig) -> Seq<Seq<char>> {
    seq![
        "-y"@,
        "-f"@,
        "rawvideo"@,
        "-pixel_format"@,
        c.pixel_format@,
        "-video_size"@,
        size_text(c.width, c.height),
        "-framerate"@,
        decimal(c.fps as nat),
        "-i"@,
        "pipe:0"@,
    ] + codec_args(c.codec) + (match c.bitrate {
        Some(b) => seq!["-b:v"@, decimal(b as nat) + seq!['k']],
        None => seq![],
    }) + seq!["-pix_fmt"@, "yuv420p"@]
}

/// The texts of a list of strings.
pub open spec fn arg_texts(v: Seq<String>) -> Seq<Seq<char>> {
    v.map_values(|s: String| s@)
}

/// Appends a literal argument.
pub fn push_arg(args: &mut Vec<String>, a: &str)
    ensures
        arg_texts(final(args)@) == arg_texts(old(args)@).push(a@),
{
    let ghost before = args@;
    args.push(String::from_str(a));
    assert(arg_texts(args@) =~= arg_texts(before).push(a@));
}

/// Appends an argument already built.
pub fn push_owned_arg(args: &mut Vec<String>, a: String)
    ensures
        arg_texts(final(args)@) == arg_texts(old(args)@).push(a@),
{
    let ghost before = args@;
    args.push(a);
    assert(arg_texts(args@) =~= arg_texts(before).push(a@));
}

/// `a` in decimal.
pub fn decimal_string(a: u64) -> (s: String)
    ensures
        s@ == decimal(a as nat),
{
    let mut s = String::new();
    push_decimal(&mut s, a);
    assert(s@ =~= decimal(a as nat));
    s
}

/// `WIDTHxHEIGHT` as a string.
pub fn size_string(width: u32, height: u32) -> (s: String)
    ensures
        s@ == size_text(width, height),
{
    let mut s = String::new();
    push_decimal(&mut s, width as u64);
    push_char(&mut s, 'x');
    push_decimal(&mut s, height as u64);
    assert(s@ =~= size_text(width, height));
    s
}

impl EncoderConfig {
    /// The `ffmpeg` command-line arguments of this encode, except the output
    /// path, which comes last.
    pub fn ffmpeg_args(&self) -> (args: Vec<String>)
        ensures
            arg_texts(args@) == encoder_args(*self),
    {
        let mut args: Vec<String> = Vec::new();
        push_arg(&mut args, "-y");
        push_arg(&mut args, "-f");
        push_arg(&mut args, "rawvideo");
        push_arg(&mut args, "-pixel_format");
        push_owned_arg(&mut args, self.pixel_format.clone());
        push_arg(&mut args, "-video_size");
        push_owned_arg(&mut args, size_string(self.width, self.height));
        push_arg(&mut args, "-framerate");
        push_owned_arg(&mut args, decimal_string(self.fps as u64));
        push_arg(&mut args, "-i");
        push_arg(&mut args, "pipe:0");
        let ghost head = arg_texts(args@);
        match self.codec {
            Codec::H264 => {
                push_arg(&mut args, "-c:v");
                push_arg(&mut args, "libx264");
                push_arg(&mut args, "-preset");
                push_arg(&mut args, "fast");
                push_arg(&mut args, "-crf");
                push_arg(&mut args, "23");
            },
            Codec::H265 => {
                push_arg(&mut args, "-c:v");
                push_arg(&mut args, "libx265");
                push_arg(&mut args, "-preset");
                push_arg(&mut args, "fast");
                push_arg(&mut args, "-crf");
                push_arg(&mut args, "28");
            },
            Codec::AV1 => {
                push_arg(&mut args, "-c:v");
                push_arg(&mut args, "libsvtav1");
                push_arg(&mut args, "-crf");
                push_arg(&mut args, "30");
            },
        }
        assert(arg_texts(args@) =~= head + codec_args(self.codec));
        let ghost with_codec = arg_texts(args@);
        match self.bitrate {
            Some(b) => {
                push_arg(&mut args, "-b:v");
                let mut rate = decimal_string(b as u64);
                push_char(&mut rate, 'k');
                assert(rate@ =~= decimal(b as nat) + seq!['k']);
                push_owned_arg(&mut args, rate);
                assert(arg_texts(args@) =~= with_codec + seq!["-b:v"@, decimal(b as nat) + seq!['k']]);
            },
            None => {
                assert(arg_texts(args@) =~= with_codec + Seq::<Seq<char>>::empty());
            },
        }
        let ghost with_rate = arg_texts(args@);
        assert(with_rate =~= with_codec + (match self.bitrate {
            Some(b) => seq!["-b:v"@, decimal(b as nat) + seq!['k']],
            None => seq![],
        }));
        push_arg(&mut args, "-pix_fmt");
        push_arg(&mut args, "yuv420p");
        assert(arg_texts(args@) =~= encoder_args(*self));
        args
    }
}

/// The video encode reads raw frames of the configured pixel format,
/// size and rate from standard input; the encoder named after `-c:v` is
/// libx264 for H.264, libx265 for H.265 and libsvtav1 for AV1 (with their
/// quality settings), so different codecs get different encoders; a
/// bitrate cap comes next when set, and the output is 4:2:0.
pub proof fn law_encoder_args_follow_config(c: EncoderConfig)
    ensures
        ({
            let a = encoder_args(c);
            &&& a[3] == "-pixel_format"@ && a[4] == c.pixel_format@
            &&& a[5] == "-video_size"@ && a[6] == decimal(c.width as nat) + seq!['x'] + decimal(
                c.height as nat,
            )
            &&& a[7] == "-framerate"@ && a[8] == decimal(c.fps as nat)
            &&& a[9] == "-i"@ && a[10] == "pipe:0"@
            &&& a[11] == "-c:v"@
            &&& match c.codec {
                Codec::H264 => a[12] == "libx264"@ && a[13] == "-preset"@ && a[14] == "fast"@
                    && a[15] == "-crf"@ && a[16] == "23"@,
                Codec::H265 => a[12] == "libx265"@ && a[13] == "-preset"@ && a[14] == "fast"@
                    && a[15] == "-crf"@ && a[16] == "28"@,
                Codec::AV1 => a[12] == "libsvtav1"@ && a[13] == "-crf"@ && a[14] == "30"@,
            }
            &&& a[a.len() - 2] == "-pix_fmt"@ && a[a.len() - 1] == "yuv420p"@
            &&& match c.bitrate {
                Some(b) => a.len() >= 4 && a[a.len() - 4] == "-b:v"@ && a[a.len() - 3] == decimal(
                    b as nat,
                ) + seq!['k'],
                None => a[a.len() - 3] != "-b:v"@ && a[a.len() - 4] != "-b:v"@,
            }
        }),
{
    reveal_strlit("-b:v");
    reveal_strlit("23");
    reveal_strlit("28");
    reveal_strlit("30");
    reveal_strlit("-crf");
    reveal_strlit("yuv420p");
    let head = seq![
        "-y"@,
        "-f"@,
        "rawvideo"@,
        "-pixel_format"@,
        c.pixel_format@,
        "-video_size"@,
        size_text(c.width, c.height),
        "-framerate"@,
        decimal(c.fps as nat),
        "-i"@,
        "pipe:0"@,
    ];
    let rate: Seq<Seq<char>> = match c.bitrate {
        Some(b) => seq!["-b:v"@, decimal(b as nat) + seq!['k']],
        None => seq![],
    };
    let tail = seq!["-pix_fmt"@, "yuv420p"@];
    let a = encoder_args(c);
    assert(a == head + codec_args(c.codec) + rate + tail);
    assert(forall|k: int| 0 <= k < 11 ==> a[k] == head[k]);
    assert(forall|k: int| 0 <= k < codec_args(c.codec).len() ==> a[11 + k] == codec_args(c.codec)[k]);
    match c.codec {
        Codec::H264 => {
            assert(a == head + seq!["-c:v"@, "libx264"@, "-preset"@, "fast"@, "-crf"@, "23"@] + rate
                + tail);
        },
        Codec::H265 => {
            assert(a == head + seq!["-c:v"@, "libx265"@, "-preset"@, "fast"@, "-crf"@, "28"@] + rate
                + tail);
        },
        Codec::AV1 => {
            assert(a == head + seq!["-c:v"@, "libsvtav1"@, "-crf"@, "30"@] + rate + tail);
        },
    }
    match c.bitrate {
        Some(b) => {
            assert(a[a.len() - 4] == rate[0]);
            assert(a[a.len() - 3] == rate[1]);
        },
        None => {
            assert(rate.len() == 0);
            assert(a[a.len() - 3] == codec_args(c.codec)[codec_args(c.codec).len() - 1]);
            assert(a[a.len() - 4] == codec_args(c.codec)[codec_args(c.codec).len() - 2]);
            assert("-crf"@[1] != "-b:v"@[1]);
            assert("23"@.len() != "-b:v"@.len() && "28"@.len() != "-b:v"@.len() && "30"@.len()
                != "-b:v"@.len());
        },
    }
    assert(a[a.len() - 2] == tail[0]);
    assert(a[a.len() - 1] == tail[1]);
}

/// Two encodes with different codecs name different encoders after `-c:v`.
pub proof fn law_codecs_get_distinct_encoders(c1: EncoderConfig, c2: EncoderConfig)
    requires
        c1.codec != c2.codec,
    ensures
        encoder_args(c1)[11] == "-c:v"@ && encoder_args(c2)[11] == "-c:v"@,
        encoder_args(c1)[12] != encoder_args(c2)[12],
{
    reveal_strlit("libx264");
    reveal_strlit("libx265");
    reveal_strlit("libsvtav1");
    law_encoder_args_follow_config(c1);
    law_encoder_args_follow_config(c2);
    assert("libx264"@[6] != "libx265"@[6]);
    assert("libx264"@.len() != "libsvtav1"@.len());
    assert("libx265"@.len() != "libsvtav1"@.len());
}

} // verus!
