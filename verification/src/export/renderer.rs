//! Export planning: which frames are rendered, which zoom region applies
//! to a frame, and the nearest-neighbour crop-and-upscale of an RGBA frame.

use vstd::prelude::*;
use std::path::PathBuf;
use crate::capture::cursor::CursorPosition;
use crate::editor::state::in_some_trim;
use crate::project::persistence::{Annotation, Project, TrimSegment, ZoomRegion};

verus! {

/// `<PathBuf as Clone>::clone`: the clone is the same path.
pub assume_specification[ <PathBuf as Clone>::clone ](p: &PathBuf) -> (q: PathBuf)
    ensures
        q == *p,
;

/// A copy of a vector of plain values.
pub fn copy_vec<T: Copy>(v: &Vec<T>) -> (c: Vec<T>)
    ensures
        c@ == v@,
{
    let mut c: Vec<T> = Vec::new();
    let mut i: usize = 0;
    while i < v.len()
        invariant
            i <= v@.len(),
            c@ == v@.take(i as int),
        decreases v@.len() - i,
    {
        c.push(v[i]);
        i = i + 1;
        assert(c@ =~= v@.take(i as int));
    }
    assert(v@.take(i as int) =~= v@);
    c
}

/// An equal copy of a list of annotations.
pub fn copy_annotations(v: &Vec<Annotation>) -> (c: Vec<Annotation>)
    ensures
        c@ == v@,
{
    let mut c: Vec<Annotation> = Vec::new();
    let mut i: usize = 0;
    while i < v.len()
        invariant
            i <= v@.len(),
            c@ == v@.take(i as int),
        decreases v@.len() - i,
    {
        c.push(v[i].duplicate());
        i = i + 1;
        assert(c@ =~= v@.take(i as int));
    }
    assert(v@.take(i as int) =~= v@);
    c
}

/// Whether the frame at `position_ms` falls in a trimmed-out range.
pub fn should_skip_frame(position_ms: u64, trim_segments: &[TrimSegment]) -> (skip: bool)
    ensures
        skip == in_some_trim(trim_segments@, position_ms),
{
    let mut i: usize = 0;
    while i < trim_segments.len()
        invariant
            i <= trim_segments@.len(),
            forall|j: int| 0 <= j < i ==> !#[trigger] trim_segments@[j].covers(position_ms),
        decreases trim_segments@.len() - i,
    {
        let seg = trim_segments[i];
        if position_ms >= seg.start_ms && position_ms < seg.end_ms {
            assert(trim_segments@[i as int].covers(position_ms));
            return true;
        }
        i = i + 1;
    }
    false
}

/// The time stamps `position, position + interval, ...` below `duration_ms`
/// that are not trimmed out.
pub open spec fn kept_frame_times(
    position: nat,
    interval: nat,
    duration_ms: nat,
    trims: Seq<TrimSegment>,
) -> Seq<u64>
    decreases (if position < duration_ms {
        duration_ms - position
    } else {
        0
    }),
{
    if interval == 0 || position >= duration_ms {
        seq![]
    } else {
        (if in_some_trim(trims, position as u64) {
            seq![]
        } else {
            seq![position as u64]
        }) + kept_frame_times(position + interval, interval, duration_ms, trims)
    }
}

/// The time stamps of the frames an export renders: every
/// `1000 / fps` milliseconds from 0 up to (excluding) `duration_ms`, except
/// those in a trimmed-out range.
pub fn frame_times(duration_ms: u64, fps: u32, trim_segments: &[TrimSegment]) -> (times: Vec<u64>)
    requires
        0 < fps,
        duration_ms == 0 || fps <= 1000,
        duration_ms + 1000int / (fps as int) <= u64::MAX,
    ensures
        times@ == kept_frame_times(0, 1000nat / (fps as nat), duration_ms as nat, trim_segments@),
{
    let interval: u64 = 1000 / (fps as u64);
    assert(interval <= 1000) by (nonlinear_arith)
        requires interval == 1000u64 / (fps as u64), fps > 0;
    assert(fps <= 1000 ==> interval >= 1) by (nonlinear_arith)
        requires interval == 1000u64 / (fps as u64), fps > 0;
    let mut times: Vec<u64> = Vec::new();
    let mut position: u64 = 0;
    while position < duration_ms
        invariant
            interval == 1000u64 / (fps as u64),
            duration_ms == 0 || interval > 0,
            interval <= 1000,
            position <= duration_ms + interval,
            duration_ms + interval <= u64::MAX,
            times@ + kept_frame_times(position as nat, interval as nat, duration_ms as nat, trim_segments@)
                == kept_frame_times(0, interval as nat, duration_ms as nat, trim_segments@),
        decreases (if position < duration_ms {
            duration_ms - position
        } else {
            0
        }),
    {
        let ghost before = times@;
        if !should_skip_frame(position, trim_segments) {
            times.push(position);
        }
        assert(before + kept_frame_times(position as nat, interval as nat, duration_ms as nat, trim_segments@)
            =~= times@ + kept_frame_times((position + interval) as nat, interval as nat, duration_ms as nat, trim_segments@));
        position = position + interval;
    }
    assert(times@ =~= kept_frame_times(0, interval as nat, duration_ms as nat, trim_segments@));
    times
}

/// The first region covering `position_ms`, if any.
pub open spec fn first_region_at(regions: Seq<ZoomRegion>, position_ms: u64) -> Option<ZoomRegion>
    decreases regions.len(),
{
    if regions.len() == 0 {
        None
    } else if regions[0].start_ms <= position_ms && position_ms < regions[0].end_ms {
        Some(regions[0])
    } else {
        first_region_at(regions.drop_first(), position_ms)
    }
}

/// The zoom region in force at `position_ms`: the first one covering it.
pub fn zoom_region_at(regions: &[ZoomRegion], position_ms: u64) -> (r: Option<ZoomRegion>)
    ensures
        r == first_region_at(regions@, position_ms),
{
    let mut i: usize = 0;
    assert(regions@.skip(0) =~= regions@);
    while i < regions.len()
        invariant
            i <= regions@.len(),
            first_region_at(regions@, position_ms) == first_region_at(
                regions@.skip(i as int),
                position_ms,
            ),
        decreases regions@.len() - i,
    {
        let region = regions[i];
        assert(regions@.skip(i as int).drop_first() =~= regions@.skip(i + 1));
        if position_ms >= region.start_ms && position_ms < region.end_ms {
            return Some(region);
        }
        i = i + 1;
    }
    None
}

/// The source byte that lands at channel `c` of output pixel `(x, y)`: the
/// crop `src_x, src_y, src_w, src_h` is stretched over the whole frame by
/// nearest neighbour; a sample past the end of the frame reads as 0.
pub open spec fn sample_byte(
    frame: Seq<u8>,
    width: nat,
    height: nat,
    src_x: nat,
    src_y: nat,
    src_w: nat,
    src_h: nat,
    x: nat,
    y: nat,
    c: nat,
) -> u8 {
    let sx = src_x + x * src_w / width;
    let sy = src_y + y * src_h / height;
    let s = (sy * width + sx) * 4;
    if s + 3 < frame.len() {
        frame[(s + c) as int]
    } else {
        0
    }
}

/// The whole upscaled RGBA frame, row by row.
pub open spec fn upscaled(
    frame: Seq<u8>,
    width: nat,
    height: nat,
    src_x: nat,
    src_y: nat,
    src_w: nat,
    src_h: nat,
) -> Seq<u8> {
    Seq::new(
        width * height * 4,
        |i: int|
            sample_byte(
                frame,
                width,
                height,
                src_x,
                src_y,
                src_w,
                src_h,
                ((i / 4) % (width as int)) as nat,
                ((i / 4) / (width as int)) as nat,
                (i % 4) as nat,
            ),
    )
}

/// Index arithmetic of an RGBA pixel: byte `(y * w + x) * 4 + c`.
proof fn lemma_pixel_index(w: int, h: int, x: int, y: int, c: int)
    requires
        0 <= x < w,
        0 <= y < h,
        0 <= c < 4,
    ensures
        ((y * w + x) * 4 + c) / 4 == y * w + x,
        ((y * w + x) * 4 + c) % 4 == c,
        (y * w + x) % w == x,
        (y * w + x) / w == y,
        0 <= (y * w + x) * 4 + c < w * h * 4,
        (y * w + x + 1) * 4 <= w * h * 4,
        (y * w + x + 1) * 4 == (y * w + x) * 4 + 4,
        (y * w + w) == (y + 1) * w,
{
    vstd::arithmetic::div_mod::lemma_fundamental_div_mod_converse(
        (y * w + x) * 4 + c,
        4,
        y * w + x,
        c,
    );
    vstd::arithmetic::div_mod::lemma_fundamental_div_mod_converse(y * w + x, w, y, x);
    assert(0 <= (y * w + x) * 4 + c < w * h * 4) by (nonlinear_arith)
        requires
            0 <= x < w,
            0 <= y < h,
            0 <= c < 4,
    ;
    assert((y * w + x + 1) * 4 <= w * h * 4) by (nonlinear_arith)
        requires
            0 <= x < w,
            0 <= y < h,
    ;
    assert(y * w + w == (y + 1) * w) by (nonlinear_arith);
}

/// Nearest-neighbour upscale of the crop `(src_x, src_y, src_w, src_h)` of a
/// `width` x `height` RGBA frame to the whole frame. The bounds in
/// `requires` are those under which the pixel index arithmetic stays within
/// `u32`.
pub fn crop_and_upscale(
    frame: &[u8],
    width: u32,
    height: u32,
    src_x: u32,
    src_y: u32,
    src_w: u32,
    src_h: u32,
) -> (out: Vec<u8>)
    requires
        width * height * 4 <= u32::MAX,
        width > 0 && height > 0 ==> (width - 1) * src_w <= u32::MAX,
        width > 0 && height > 0 ==> (height - 1) * src_h <= u32::MAX,
        width > 0 && height > 0 ==> ((src_y + (height - 1) * src_h / (height as int)) * width
            + src_x + (width - 1) * src_w / (width as int)) * 4 <= u32::MAX,
    ensures
        out@ == upscaled(
            frame@,
            width as nat,
            height as nat,
            src_x as nat,
            src_y as nat,
            src_w as nat,
            src_h as nat,
        ),
{
    let w = width as u64;
    let h = height as u64;
    let ghost full = upscaled(
        frame@,
        width as nat,
        height as nat,
        src_x as nat,
        src_y as nat,
        src_w as nat,
        src_h as nat,
    );
    let mut out: Vec<u8> = Vec::new();
    let mut y: u64 = 0;
    while y < h
        invariant
            w == width,
            h == height,
            y <= h,
            w * h * 4 <= u32::MAX,
            full == upscaled(frame@, width as nat, height as nat, src_x as nat, src_y as nat, src_w as nat, src_h as nat),
            width > 0 && height > 0 ==> (width - 1) * src_w <= u32::MAX,
            width > 0 && height > 0 ==> (height - 1) * src_h <= u32::MAX,
            width > 0 && height > 0 ==> ((src_y + (height - 1) * src_h / (height as int)) * width
                + src_x + (width - 1) * src_w / (width as int)) * 4 <= u32::MAX,
            out@ == full.take(y * w * 4),
            y * w * 4 <= w * h * 4,
        decreases h - y,
    {
        let mut x: u64 = 0;
        while x < w
            invariant
                w == width,
                h == height,
                y < h,
                x <= w,
                w * h * 4 <= u32::MAX,
                full == upscaled(frame@, width as nat, height as nat, src_x as nat, src_y as nat, src_w as nat, src_h as nat),
                width > 0 && height > 0 ==> (width - 1) * src_w <= u32::MAX,
                width > 0 && height > 0 ==> (height - 1) * src_h <= u32::MAX,
                width > 0 && height > 0 ==> ((src_y + (height - 1) * src_h / (height as int)) * width
                    + src_x + (width - 1) * src_w / (width as int)) * 4 <= u32::MAX,
                out@ == full.take((y * w + x) * 4),
            decreases w - x,
        {
            proof {
                lemma_pixel_index(w as int, h as int, x as int, y as int, 0);
                assert(x * src_w <= (w - 1) * src_w) by (nonlinear_arith)
                    requires x <= w - 1;
                assert(y * src_h <= (h - 1) * src_h) by (nonlinear_arith)
                    requires y <= h - 1;
                assert(x * src_w / (w as int) <= (w - 1) * src_w / (w as int)) by (nonlinear_arith)
                    requires x * src_w <= (w - 1) * src_w, w > 0;
                assert(y * src_h / (h as int) <= (h - 1) * src_h / (h as int)) by (nonlinear_arith)
                    requires y * src_h <= (h - 1) * src_h, h > 0;
                let sy_max = src_y + (h - 1) * src_h / (h as int);
                let sy = src_y + y * src_h / (h as int);
                assert(sy * w <= sy_max * w) by (nonlinear_arith)
                    requires sy <= sy_max, w >= 0;
            }
            let sample_x: u64 = src_x as u64 + x * (src_w as u64) / w;
            let sample_y: u64 = src_y as u64 + y * (src_h as u64) / h;
            let s: u64 = (sample_y * w + sample_x) * 4;
            let ghost n = ((y * w + x) * 4) as int;
            proof {
                lemma_pixel_index(w as int, h as int, x as int, y as int, 0);
                lemma_pixel_index(w as int, h as int, x as int, y as int, 1);
                lemma_pixel_index(w as int, h as int, x as int, y as int, 2);
                lemma_pixel_index(w as int, h as int, x as int, y as int, 3);
            }
            if (s as usize) < frame.len() && (s as usize) + 3 < frame.len() {
                let si = s as usize;
                out.push(frame[si]);
                assert(out@ =~= full.take(n + 1));
                out.push(frame[si + 1]);
                assert(out@ =~= full.take(n + 2));
                out.push(frame[si + 2]);
                assert(out@ =~= full.take(n + 3));
                out.push(frame[si + 3]);
                assert(out@ =~= full.take(n + 4));
            } else {
                out.push(0u8);
                assert(out@ =~= full.take(n + 1));
                out.push(0u8);
                assert(out@ =~= full.take(n + 2));
                out.push(0u8);
                assert(out@ =~= full.take(n + 3));
                out.push(0u8);
                assert(out@ =~= full.take(n + 4));
            }
            x = x + 1;
        }
        proof {
            assert((y * w + w) * 4 == (y + 1) * w * 4) by (nonlinear_arith);
            assert((y + 1) * w * 4 <= w * h * 4) by (nonlinear_arith)
                requires y + 1 <= h;
        }
        y = y + 1;
    }
    assert(y * w * 4 == w * h * 4) by (nonlinear_arith)
        requires y == h;
    assert(full.take((w * h * 4) as int) =~= full);
    out
}

/// Exports a project: the frames to render and what applies to them.
pub struct ExportRenderer {
    video_path: PathBuf,
    width: u32,
    height: u32,
    fps: u32,
    trim_segments: Vec<TrimSegment>,
    zoom_regions: Vec<ZoomRegion>,
    annotations: Vec<Annotation>,
    cursor_data: Vec<CursorPosition>,
    duration_ms: u64,
}

impl ExportRenderer {
    /// A renderer for `project` at the given output size and frame rate.
    pub fn new(project: &Project, width: u32, height: u32, fps: u32) -> (r: Self)
        ensures
            r.video_path() == project.source_video,
            r.width() == width,
            r.height() == height,
            r.fps() == fps,
            r.duration_ms() == project.duration_ms,
            r.trim_segments() == project.trim_segments@,
            r.zoom_regions() == project.zoom_regions@,
            r.annotations() == project.annotations@,
            r.cursor_data() == project.cursor_data@,
    {
        ExportRenderer {
            video_path: project.source_video.clone(),
            width,
            height,
            fps,
            trim_segments: copy_vec(&project.trim_segments),
            zoom_regions: copy_vec(&project.zoom_regions),
            annotations: copy_annotations(&project.annotations),
            cursor_data: copy_vec(&project.cursor_data),
            duration_ms: project.duration_ms,
        }
    }

    pub closed spec fn video_path(&self) -> PathBuf {
        self.video_path
    }

    pub closed spec fn width(&self) -> u32 {
        self.width
    }

    pub closed spec fn height(&self) -> u32 {
        self.height
    }

    pub closed spec fn fps(&self) -> u32 {
        self.fps
    }

    pub closed spec fn duration_ms(&self) -> u64 {
        self.duration_ms
    }

    pub closed spec fn trim_segments(&self) -> Seq<TrimSegment> {
        self.trim_segments@
    }

    pub closed spec fn zoom_regions(&self) -> Seq<ZoomRegion> {
        self.zoom_regions@
    }

    pub closed spec fn annotations(&self) -> Seq<Annotation> {
        self.annotations@
    }

    pub closed spec fn cursor_data(&self) -> Seq<CursorPosition> {
        self.cursor_data@
    }

    /// The source video.
    pub fn source_video(&self) -> (p: &PathBuf)
        ensures
            *p == self.video_path(),
    {
        &self.video_path
    }

    /// Output width in pixels.
    pub fn output_width(&self) -> (w: u32)
        ensures
            w == self.width(),
    {
        self.width
    }

    /// Output height in pixels.
    pub fn output_height(&self) -> (h: u32)
        ensures
            h == self.height(),
    {
        self.height
    }

    /// Output frame rate.
    pub fn output_fps(&self) -> (f: u32)
        ensures
            f == self.fps(),
    {
        self.fps
    }

    /// Length of the project.
    pub fn total_duration_ms(&self) -> (d: u64)
        ensures
            d == self.duration_ms(),
    {
        self.duration_ms
    }

    /// The trimmed-out ranges.
    pub fn trims(&self) -> (t: &[TrimSegment])
        ensures
            t@ == self.trim_segments(),
    {
        self.trim_segments.as_slice()
    }

    /// The zoom region in force at `position_ms`: the first one covering it.
    pub fn zoom_at(&self, position_ms: u64) -> (r: Option<ZoomRegion>)
        ensures
            r == first_region_at(self.zoom_regions(), position_ms),
    {
        zoom_region_at(self.zoom_regions.as_slice(), position_ms)
    }

    /// The time stamps of the frames rendered at `frame_rate` frames per second.
    pub fn frame_schedule(&self, frame_rate: u32) -> (times: Vec<u64>)
        requires
            0 < frame_rate,
            self.duration_ms() == 0 || frame_rate <= 1000,
            self.duration_ms() + 1000int / (frame_rate as int) <= u64::MAX,
        ensures
            times@ == kept_frame_times(
                0,
                1000nat / (frame_rate as nat),
                self.duration_ms() as nat,
                self.trim_segments(),
            ),
    {
        frame_times(self.duration_ms, frame_rate, self.trim_segments.as_slice())
    }
}


/// Membership in the frame schedule from `position` on.
proof fn lemma_kept_frame_times_member(
    position: nat,
    interval: nat,
    duration_ms: nat,
    trims: Seq<TrimSegment>,
    t: u64,
)
    requires
        interval > 0,
        duration_ms <= u64::MAX,
    ensures
        kept_frame_times(position, interval, duration_ms, trims).contains(t) <==> (position <= t
            && t < duration_ms && (t - position) % (interval as int) == 0 && !in_some_trim(
            trims,
            t,
        )),
    decreases (if position < duration_ms {
        duration_ms - position
    } else {
        0
    }),
{
    if position < duration_ms {
        let head = if in_some_trim(trims, position as u64) {
            seq![]
        } else {
            seq![position as u64]
        };
        let rest = kept_frame_times(position + interval, interval, duration_ms, trims);
        lemma_kept_frame_times_member(position + interval, interval, duration_ms, trims, t);
        assert(kept_frame_times(position, interval, duration_ms, trims) == head + rest);
        assert((head + rest).contains(t) <==> head.contains(t) || rest.contains(t)) by {
            if (head + rest).contains(t) {
                let k = choose|k: int| 0 <= k < (head + rest).len() && (head + rest)[k] == t;
                if k >= head.len() {
                    assert(rest[k - head.len()] == t);
                }
            }
            if rest.contains(t) {
                let k = choose|k: int| 0 <= k < rest.len() && rest[k] == t;
                assert((head + rest)[head.len() + k] == t);
            }
            if head.contains(t) {
                assert((head + rest)[0] == t);
            }
        }
        if position <= t && t < duration_ms && (t - position) % (interval as int) == 0 && t
            != position {
            assert(t >= position + interval) by {
                if t < position + interval {
                    vstd::arithmetic::div_mod::lemma_small_mod(
                        (t - position) as nat,
                        interval,
                    );
                }
            }
            vstd::arithmetic::div_mod::lemma_mod_sub_multiples_vanish(
                (t - position) as int,
                interval as int,
            );
        }
        if position + interval <= t && (t - (position + interval)) % (interval as int) == 0 {
            vstd::arithmetic::div_mod::lemma_mod_add_multiples_vanish(
                (t - (position + interval)) as int,
                interval as int,
            );
            assert((t - (position + interval)) + interval == t - position);
        }
        if t == position {
            assert(0int % (interval as int) == 0);
        }
    }
}

/// An export renders exactly the untrimmed multiples of the frame interval
/// below the duration.
pub proof fn law_frame_schedule_exact(
    interval: nat,
    duration_ms: nat,
    trims: Seq<TrimSegment>,
    t: u64,
)
    requires
        interval > 0,
        duration_ms <= u64::MAX,
    ensures
        kept_frame_times(0, interval, duration_ms, trims).contains(t) <==> (t < duration_ms && (t as int)
            % (interval as int) == 0 && !in_some_trim(trims, t)),
{
    lemma_kept_frame_times_member(0, interval, duration_ms, trims, t);
}

/// Cropping the whole frame (origin 0, full size) gives the frame back.
pub proof fn law_full_crop_is_identity(frame: Seq<u8>, width: nat, height: nat)
    requires
        frame.len() == width * height * 4,
    ensures
        upscaled(frame, width, height, 0, 0, width, height) == frame,
{
    let out = upscaled(frame, width, height, 0, 0, width, height);
    assert forall|i: int| 0 <= i < out.len() implies out[i] == frame[i] by {
        let p = i / 4;
        let c = i % 4;
        let x = p % (width as int);
        let y = p / (width as int);
        assert(width > 0) by {
            if width == 0 {
                assert(width * height * 4 == 0) by (nonlinear_arith)
                    requires width == 0;
            }
        }
        vstd::arithmetic::div_mod::lemma_fundamental_div_mod(i, 4);
        vstd::arithmetic::div_mod::lemma_fundamental_div_mod(p, width as int);
        assert(0 <= x < width && 0 <= c < 4 && p >= 0 && y >= 0);
        assert(x * width / (width as int) == x) by {
            vstd::arithmetic::div_mod::lemma_div_multiples_vanish(x, width as int);
            vstd::arithmetic::mul::lemma_mul_is_commutative(x, width as int);
        }
        assert(y < height) by {
            assert(i < width * height * 4);
            assert(p < width * height) by (nonlinear_arith)
                requires i < width * height * 4, p == i / 4, i >= 0;
            assert(y < height) by (nonlinear_arith)
                requires p < width * height, y == p / (width as int), width > 0, p >= 0;
        }
        assert(y * height / (height as int) == y) by {
            vstd::arithmetic::div_mod::lemma_div_multiples_vanish(y, height as int);
            vstd::arithmetic::mul::lemma_mul_is_commutative(y, height as int);
        }
        assert((y * width + x) * 4 + c == i);
        assert((y * width + x) * 4 + 3 < frame.len()) by (nonlinear_arith)
            requires x < width, y < height, frame.len() == width * height * 4, x >= 0, y >= 0;
    }
    assert(out =~= frame);
}

} // verus!
