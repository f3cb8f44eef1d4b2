//! The editor's state: the project being edited, playback and timeline.

use vstd::prelude::*;
use crate::editor::speed::{clamp_speed, clamped_speed, NORMAL_SPEED};
use crate::project::persistence::{Project, TrimSegment, ZoomRegion};

verus! {

/// The tool selected in the editor.
#[derive(Debug, Clone, Copy, PartialEq, Eq)]
pub enum EditorTool {
    Select,
    Trim,
    Zoom,
    Annotate,
}

/// A selected time range.
#[derive(Debug, Clone, Copy, PartialEq, Eq)]
pub struct TimeSelection {
    pub start_ms: u64,
    pub end_ms: u64,
}

/// Playback position and mode. `playback_speed` is an `f32` bit pattern.
#[derive(Debug, Clone, Copy)]
pub struct PlaybackState {
    pub position_ms: u64,
    pub is_playing: bool,
    pub playback_speed: u32,
    pub loop_enabled: bool,
}

impl Default for PlaybackState {
    /// At the start, paused, at normal speed, without looping.
    fn default() -> (s: Self)
        ensures
            s.position_ms == 0,
            !s.is_playing,
            s.playback_speed == NORMAL_SPEED,
            !s.loop_enabled,
    {
        PlaybackState {
            position_ms: 0,
            is_playing: false,
            playback_speed: NORMAL_SPEED,
            loop_enabled: false,
        }
    }
}

/// View of the timeline. `zoom_level` and `scroll_offset` are `f32` bit patterns.
#[derive(Debug, Clone, Copy)]
pub struct TimelineState {
    pub zoom_level: u32,
    pub scroll_offset: u32,
    pub selection: Option<TimeSelection>,
}

/// Bit pattern of `0.0f32`.
pub const ZERO_F32: u32 = 0;

impl Default for TimelineState {
    /// Zoom 1.0, no scrolling, nothing selected.
    fn default() -> (s: Self)
        ensures
            s.zoom_level == NORMAL_SPEED,
            s.scroll_offset == ZERO_F32,
            s.selection.is_none(),
    {
        TimelineState { zoom_level: NORMAL_SPEED, scroll_offset: ZERO_F32, selection: None }
    }
}

/// Sum of the lengths of the trim segments (a segment ending before it
/// starts counts as empty).
pub open spec fn trimmed_total(trims: Seq<TrimSegment>) -> nat
    decreases trims.len(),
{
    if trims.len() == 0 {
        0
    } else {
        trimmed_total(trims.drop_last()) + (if trims.last().end_ms > trims.last().start_ms {
            (trims.last().end_ms - trims.last().start_ms) as nat
        } else {
            0nat
        })
    }
}

/// Whether some trim segment covers `position_ms`.
pub open spec fn in_some_trim(trims: Seq<TrimSegment>, position_ms: u64) -> bool {
    exists|i: int| 0 <= i < trims.len() && #[trigger] trims[i].covers(position_ms)
}

/// Where a seek to `position_ms` puts the play head: the position itself,
/// or the end of a recording of `duration_ms` when it lies beyond.
pub open spec fn clamped_position(position_ms: u64, duration_ms: u64) -> u64 {
    if position_ms < duration_ms {
        position_ms
    } else {
        duration_ms
    }
}

/// Duration left after removing the trimmed length, stopping at 0.
pub open spec fn effective_duration(trims: Seq<TrimSegment>, duration_ms: u64) -> nat {
    if trimmed_total(trims) < duration_ms {
        (duration_ms - trimmed_total(trims)) as nat
    } else {
        0
    }
}

/// The whole editor state.
pub struct EditorState {
    pub project: Project,
    pub playback: PlaybackState,
    pub timeline: TimelineState,
    pub selected_tool: EditorTool,
}

impl EditorState {
    /// Opens `project` paused at the start with the select tool.
    pub fn new(project: Project) -> (s: Self)
        ensures
            s.project == project,
            s.playback.position_ms == 0,
            !s.playback.is_playing,
            s.playback.playback_speed == NORMAL_SPEED,
            !s.playback.loop_enabled,
            s.timeline.zoom_level == NORMAL_SPEED,
            s.timeline.scroll_offset == ZERO_F32,
            s.timeline.selection.is_none(),
            s.selected_tool == EditorTool::Select,
    {
        EditorState {
            project,
            playback: PlaybackState::default(),
            timeline: TimelineState::default(),
            selected_tool: EditorTool::Select,
        }
    }

    /// Moves the play head to `position_ms`, clamped to the duration.
    pub fn seek(&mut self, position_ms: u64)
        ensures
            final(self).playback.position_ms == clamped_position(
                position_ms,
                old(self).project.duration_ms,
            ),
            final(self).playback.is_playing == old(self).playback.is_playing,
            final(self).playback.playback_speed == old(self).playback.playback_speed,
            final(self).playback.loop_enabled == old(self).playback.loop_enabled,
            final(self).project == old(self).project,
            final(self).timeline == old(self).timeline,
            final(self).selected_tool == old(self).selected_tool,
    {
        let duration = self.project.duration_ms;
        self.playback.position_ms = if position_ms < duration {
            position_ms
        } else {
            duration
        };
    }

    /// Switches between playing and paused.
    pub fn toggle_playback(&mut self)
        ensures
            final(self).playback.is_playing == !old(self).playback.is_playing,
            final(self).playback.position_ms == old(self).playback.position_ms,
            final(self).playback.playback_speed == old(self).playback.playback_speed,
            final(self).playback.loop_enabled == old(self).playback.loop_enabled,
            final(self).project == old(self).project,
            final(self).timeline == old(self).timeline,
            final(self).selected_tool == old(self).selected_tool,
    {
        self.playback.is_playing = !self.playback.is_playing;
    }

    /// Sets the playback speed, clamped to `[0.25, 4.0]`.
    pub fn set_speed(&mut self, speed: u32)
        ensures
            final(self).playback.playback_speed == clamped_speed(speed),
            final(self).playback.position_ms == old(self).playback.position_ms,
            final(self).playback.is_playing == old(self).playback.is_playing,
            final(self).playback.loop_enabled == old(self).playback.loop_enabled,
            final(self).project == old(self).project,
            final(self).timeline == old(self).timeline,
            final(self).selected_tool == old(self).selected_tool,
    {
        self.playback.playback_speed = clamp_speed(speed);
    }

    /// Adds a trimmed-out range.
    pub fn add_trim(&mut self, start_ms: u64, end_ms: u64)
        ensures
            final(self).project.trim_segments@ == old(self).project.trim_segments@.push(
                TrimSegment { start_ms, end_ms },
            ),
            final(self).project == (Project {
                trim_segments: final(self).project.trim_segments,
                ..old(self).project
            }),
            final(self).playback == old(self).playback,
            final(self).timeline == old(self).timeline,
            final(self).selected_tool == old(self).selected_tool,
    {
        self.project.trim_segments.push(TrimSegment { start_ms, end_ms });
    }

    /// Removes the trim at `index`; an index out of range changes nothing.
    pub fn remove_trim(&mut self, index: usize)
        ensures
            index < old(self).project.trim_segments@.len() ==> final(self).project.trim_segments@
                == old(self).project.trim_segments@.remove(index as int),
            index >= old(self).project.trim_segments@.len() ==> final(self).project.trim_segments@ == old(self).project.trim_segments@,
            final(self).project == (Project {
                trim_segments: final(self).project.trim_segments,
                ..old(self).project
            }),
            final(self).playback == old(self).playback,
            final(self).timeline == old(self).timeline,
            final(self).selected_tool == old(self).selected_tool,
    {
        if index < self.project.trim_segments.len() {
            self.project.trim_segments.remove(index);
        }
    }

    /// Adds a zoom region.
    pub fn add_zoom_region(&mut self, region: ZoomRegion)
        ensures
            final(self).project.zoom_regions@ == old(self).project.zoom_regions@.push(region),
            final(self).project == (Project {
                zoom_regions: final(self).project.zoom_regions,
                ..old(self).project
            }),
            final(self).playback == old(self).playback,
            final(self).timeline == old(self).timeline,
            final(self).selected_tool == old(self).selected_tool,
    {
        self.project.zoom_regions.push(region);
    }

    /// Duration left after removing every trimmed range (their lengths are
    /// added up as they are, overlaps included; the result stops at 0).
    pub fn effective_duration_ms(&self) -> (d: u64)
        requires
            trimmed_total(self.project.trim_segments@) <= u64::MAX,
        ensures
            d == effective_duration(self.project.trim_segments@, self.project.duration_ms),
    {
        let mut trimmed: u64 = 0;
        let mut i: usize = 0;
        while i < self.project.trim_segments.len()
            invariant
                i <= self.project.trim_segments@.len(),
                trimmed == trimmed_total(self.project.trim_segments@.take(i as int)),
                trimmed_total(self.project.trim_segments@) <= u64::MAX,
            decreases self.project.trim_segments@.len() - i,
        {
            let t = self.project.trim_segments[i];
            proof {
                assert(self.project.trim_segments@.take(i + 1).drop_last()
                    =~= self.project.trim_segments@.take(i as int));
                lemma_trimmed_total_prefix(self.project.trim_segments@, i + 1);
            }
            trimmed = trimmed + t.end_ms.saturating_sub(t.start_ms);
            i = i + 1;
        }
        assert(self.project.trim_segments@.take(i as int) =~= self.project.trim_segments@);
        self.project.duration_ms.saturating_sub(trimmed)
    }

    /// Whether `position_ms` lies in a trimmed-out range.
    pub fn is_trimmed(&self, position_ms: u64) -> (b: bool)
        ensures
            b == in_some_trim(self.project.trim_segments@, position_ms),
    {
        let mut i: usize = 0;
        while i < self.project.trim_segments.len()
            invariant
                i <= self.project.trim_segments@.len(),
                forall|j: int| 0 <= j < i ==> !#[trigger] self.project.trim_segments@[j].covers(
                    position_ms,
                ),
            decreases self.project.trim_segments@.len() - i,
        {
            let t = self.project.trim_segments[i];
            if position_ms >= t.start_ms && position_ms < t.end_ms {
                assert(self.project.trim_segments@[i as int].covers(position_ms));
                return true;
            }
            i = i + 1;
        }
        false
    }
}

/// A prefix of the trims never adds up to more than all of them.
pub proof fn lemma_trimmed_total_prefix(trims: Seq<TrimSegment>, k: int)
    requires
        0 <= k <= trims.len(),
    ensures
        trimmed_total(trims.take(k)) <= trimmed_total(trims),
    decreases trims.len(),
{
    if k < trims.len() {
        assert(trims.drop_last().take(k) =~= trims.take(k));
        lemma_trimmed_total_prefix(trims.drop_last(), k);
    } else {
        assert(trims.take(k) =~= trims);
    }
}

/// Seeking never moves the play head past the end, and a position within
/// the recording is reached exactly.
pub proof fn law_seek_within_duration(position_ms: u64, duration_ms: u64)
    ensures
        clamped_position(position_ms, duration_ms) <= duration_ms,
        position_ms <= duration_ms ==> clamped_position(position_ms, duration_ms) == position_ms,
{
}

/// Adding a trim and then removing the last trim gives the trims back.
pub proof fn law_remove_last_trim_undoes_add(trims: Seq<TrimSegment>, t: TrimSegment)
    ensures
        trims.push(t).remove(trims.len() as int) == trims,
{
    assert(trims.push(t).remove(trims.len() as int) =~= trims);
}

/// The effective duration never exceeds the recording, and is reduced by
/// exactly the trimmed length when that fits.
pub proof fn law_effective_duration_bounds(trims: Seq<TrimSegment>, duration_ms: u64)
    ensures
        effective_duration(trims, duration_ms) <= duration_ms,
        trimmed_total(trims) <= duration_ms ==> effective_duration(trims, duration_ms)
            + trimmed_total(trims) == duration_ms,
        trims.len() == 0 ==> effective_duration(trims, duration_ms) == duration_ms,
{
}

/// Number of positions below `n` that no trim covers.
pub open spec fn untrimmed_below(trims: Seq<TrimSegment>, n: nat) -> nat
    decreases n,
{
    if n == 0 {
        0
    } else {
        untrimmed_below(trims, (n - 1) as nat) + (if in_some_trim(trims, (n - 1) as u64) {
            0nat
        } else {
            1nat
        })
    }
}

/// No position lies in two trims.
pub open spec fn trims_disjoint(trims: Seq<TrimSegment>) -> bool {
    forall|i: int, j: int, p: u64|
        0 <= i < j < trims.len() ==> !(#[trigger] trims[i].covers(p) && #[trigger] trims[j].covers(
            p,
        ))
}

/// Length of the part of a trim below `n`.
spec fn overlap(t: TrimSegment, n: nat) -> nat {
    let e: int = if t.end_ms < n {
        t.end_ms as int
    } else {
        n as int
    };
    if e > t.start_ms {
        (e - t.start_ms) as nat
    } else {
        0
    }
}

/// Length of the parts of the trims below `n`, added up.
spec fn overlap_total(trims: Seq<TrimSegment>, n: nat) -> nat
    decreases trims.len(),
{
    if trims.len() == 0 {
        0
    } else {
        overlap_total(trims.drop_last(), n) + overlap(trims.last(), n)
    }
}

/// Number of trims covering `p`.
spec fn covers_count(trims: Seq<TrimSegment>, p: u64) -> nat
    decreases trims.len(),
{
    if trims.len() == 0 {
        0
    } else {
        covers_count(trims.drop_last(), p) + (if trims.last().covers(p) {
            1nat
        } else {
            0nat
        })
    }
}

proof fn lemma_overlap_zero(trims: Seq<TrimSegment>)
    ensures
        overlap_total(trims, 0) == 0,
    decreases trims.len(),
{
    if trims.len() > 0 {
        lemma_overlap_zero(trims.drop_last());
    }
}

/// One more position adds the number of trims covering it.
proof fn lemma_overlap_step(trims: Seq<TrimSegment>, n: u64)
    ensures
        overlap_total(trims, n as nat + 1) == overlap_total(trims, n as nat) + covers_count(
            trims,
            n,
        ),
    decreases trims.len(),
{
    if trims.len() > 0 {
        lemma_overlap_step(trims.drop_last(), n);
    }
}

/// With disjoint trims a position is covered once or not at all.
proof fn lemma_covers_count_disjoint(trims: Seq<TrimSegment>, p: u64)
    requires
        trims_disjoint(trims),
    ensures
        covers_count(trims, p) == (if in_some_trim(trims, p) {
            1nat
        } else {
            0nat
        }),
    decreases trims.len(),
{
    if trims.len() > 0 {
        let t = trims.drop_last();
        assert(trims_disjoint(t)) by {
            assert forall|i: int, j: int, q: u64| 0 <= i < j < t.len() implies !(
            #[trigger] t[i].covers(q) && #[trigger] t[j].covers(q)) by {
                assert(t[i] == trims[i] && t[j] == trims[j]);
            }
        }
        lemma_covers_count_disjoint(t, p);
        let k = trims.len() - 1;
        if trims.last().covers(p) {
            assert(trims[k].covers(p));
            if in_some_trim(t, p) {
                let i = choose|i: int| 0 <= i < t.len() && #[trigger] t[i].covers(p);
                assert(trims[i].covers(p));
                assert(false);
            }
        } else {
            if in_some_trim(trims, p) {
                let i = choose|i: int| 0 <= i < trims.len() && #[trigger] trims[i].covers(p);
                assert(i != k);
                assert(t[i].covers(p));
            }
            if in_some_trim(t, p) {
                let i = choose|i: int| 0 <= i < t.len() && #[trigger] t[i].covers(p);
                assert(trims[i].covers(p));
            }
        }
    }
}

/// Untrimmed and trimmed positions below `n` make up all of them.
proof fn lemma_untrimmed_plus_overlap(trims: Seq<TrimSegment>, n: nat)
    requires
        trims_disjoint(trims),
        n <= u64::MAX + 1,
    ensures
        untrimmed_below(trims, n) + overlap_total(trims, n) == n,
    decreases n,
{
    if n == 0 {
        lemma_overlap_zero(trims);
    } else {
        lemma_untrimmed_plus_overlap(trims, (n - 1) as nat);
        lemma_overlap_step(trims, (n - 1) as u64);
        lemma_covers_count_disjoint(trims, (n - 1) as u64);
    }
}

/// Trims that end within `d` lie below `d` entirely.
proof fn lemma_overlap_whole(trims: Seq<TrimSegment>, d: nat)
    requires
        forall|i: int| 0 <= i < trims.len() ==> #[trigger] trims[i].end_ms <= d,
    ensures
        overlap_total(trims, d) == trimmed_total(trims),
    decreases trims.len(),
{
    if trims.len() > 0 {
        let t = trims.drop_last();
        assert forall|i: int| 0 <= i < t.len() implies #[trigger] t[i].end_ms <= d by {
            assert(t[i] == trims[i]);
        }
        lemma_overlap_whole(t, d);
        assert(trims.last() == trims[trims.len() - 1]);
    }
}

/// With trims that do not overlap and end within the recording, the
/// effective duration is the number of positions of the recording that no
/// trim covers.
pub proof fn law_effective_duration_counts_untrimmed(trims: Seq<TrimSegment>, duration_ms: u64)
    requires
        trims_disjoint(trims),
        forall|i: int| 0 <= i < trims.len() ==> #[trigger] trims[i].end_ms <= duration_ms,
    ensures
        trimmed_total(trims) <= duration_ms,
        effective_duration(trims, duration_ms) == untrimmed_below(trims, duration_ms as nat),
{
    lemma_untrimmed_plus_overlap(trims, duration_ms as nat);
    lemma_overlap_whole(trims, duration_ms as nat);
}

} // verus!
