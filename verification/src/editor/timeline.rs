//! The timeline widget's logic: time labels, marker spacing and the
//! pointer interaction (press to seek, drag, release).

use vstd::prelude::*;
use crate::text::{decimal, push_char, push_decimal, push_zero_padded, zero_padded};

verus! {

/// What the timeline reports to the editor.
#[derive(Debug, Clone, Copy, PartialEq, Eq)]
pub enum TimelineMessage {
    Seek(u64),
    DragStart,
    DragMove(u64),
    DragEnd,
}

/// A trimmed range as the timeline draws it.
#[derive(Debug, Clone, Copy, PartialEq, Eq)]
pub struct TrimSegment {
    pub start_ms: u64,
    pub end_ms: u64,
}

/// A zoomed range as the timeline draws it.
#[derive(Debug, Clone, Copy, PartialEq, Eq)]
pub struct ZoomRegion {
    pub start_ms: u64,
    pub end_ms: u64,
}

/// `minutes:seconds` of a time stamp, seconds on two digits; the
/// milliseconds are dropped.
pub open spec fn time_marker_text(ms: u64) -> Seq<char> {
    let total_secs = ms / 1000;
    decimal((total_secs / 60) as nat) + seq![':'] + zero_padded((total_secs % 60) as nat, 2)
}

/// Formats a time stamp as `M:SS`, e.g. `90_000` as `"1:30"`.
pub fn format_time_marker(ms: u64) -> (s: String)
    ensures
        s@ == time_marker_text(ms),
{
    let total_secs = ms / 1000;
    let minutes = total_secs / 60;
    let seconds = total_secs % 60;
    let mut s = String::new();
    push_decimal(&mut s, minutes);
    push_char(&mut s, ':');
    push_zero_padded(&mut s, seconds, 2);
    assert(s@ =~= time_marker_text(ms));
    s
}

/// Spacing of the time markers: every second up to 10 s, every 5 s up to
/// a minute, every 15 s up to 5 minutes, else every minute.
pub open spec fn marker_interval(duration_ms: u64) -> u64 {
    if duration_ms <= 10_000 {
        1_000
    } else if duration_ms <= 60_000 {
        5_000
    } else if duration_ms <= 300_000 {
        15_000
    } else {
        60_000
    }
}

/// Spacing of the time markers for a recording of `duration_ms`.
pub fn marker_interval_ms(duration_ms: u64) -> (i: u64)
    ensures
        i == marker_interval(duration_ms),
{
    if duration_ms <= 10_000 {
        1_000
    } else if duration_ms <= 60_000 {
        5_000
    } else if duration_ms <= 300_000 {
        15_000
    } else {
        60_000
    }
}

/// The marker times `t, t + interval, ...` below `duration_ms`.
pub open spec fn markers_from(t: nat, interval: nat, duration_ms: nat) -> Seq<u64>
    decreases (if t < duration_ms {
        duration_ms - t
    } else {
        0
    }),
{
    if interval == 0 || t >= duration_ms {
        seq![]
    } else {
        seq![t as u64] + markers_from(t + interval, interval, duration_ms)
    }
}

/// The times at which the timeline draws a marker: every interval after
/// the start, strictly before the end.
pub fn marker_times(duration_ms: u64) -> (times: Vec<u64>)
    requires
        duration_ms == 0 || duration_ms - 1 + marker_interval(duration_ms) <= u64::MAX,
    ensures
        duration_ms == 0 ==> times@.len() == 0,
        duration_ms > 0 ==> times@ == markers_from(
            marker_interval(duration_ms) as nat,
            marker_interval(duration_ms) as nat,
            duration_ms as nat,
        ),
{
    let mut times: Vec<u64> = Vec::new();
    if duration_ms > 0 {
        let interval = marker_interval_ms(duration_ms);
        let mut t = interval;
        assert(times@ + markers_from(t as nat, interval as nat, duration_ms as nat)
            =~= markers_from(interval as nat, interval as nat, duration_ms as nat));
        while t < duration_ms
            invariant
                interval == marker_interval(duration_ms),
                interval > 0,
                duration_ms - 1 + interval <= u64::MAX,
                times@ + markers_from(t as nat, interval as nat, duration_ms as nat)
                    == markers_from(interval as nat, interval as nat, duration_ms as nat),
            decreases (if t < duration_ms {
                duration_ms - t
            } else {
                0
            }),
        {
            let ghost before = times@;
            times.push(t);
            assert(before + markers_from(t as nat, interval as nat, duration_ms as nat)
                =~= times@ + markers_from((t + interval) as nat, interval as nat, duration_ms as nat));
            t = t + interval;
        }
        assert(times@ =~= markers_from(interval as nat, interval as nat, duration_ms as nat));
    }
    times
}

/// A pointer event over the timeline. A press or move carries the time
/// under the pointer when the pointer is over the timeline.
#[derive(Debug, Clone, Copy, PartialEq, Eq)]
pub enum PointerEvent {
    LeftPressed(Option<u64>),
    Moved(Option<u64>),
    LeftReleased,
    Other,
}

/// Whether the user is dragging the play head.
#[derive(Debug, Clone, Copy, PartialEq, Eq)]
pub struct TimelineState {
    dragging: bool,
}

impl TimelineState {
    /// Not dragging.
    pub fn new() -> (s: Self)
        ensures
            !s.dragging(),
    {
        TimelineState { dragging: false }
    }

    pub closed spec fn dragging(&self) -> bool {
        self.dragging
    }

    /// Whether a drag is in progress.
    pub fn is_dragging(&self) -> (b: bool)
        ensures
            b == self.dragging(),
    {
        self.dragging
    }

    /// Reacts to a pointer event: a press over the timeline starts a drag
    /// and seeks; a move while dragging over the timeline reports the new
    /// time; a release ends a drag.
    pub fn handle_pointer(&mut self, event: PointerEvent) -> (m: Option<TimelineMessage>)
        ensures
            match event {
                PointerEvent::LeftPressed(Some(ms)) => final(self).dragging() && m == Some(
                    TimelineMessage::Seek(ms),
                ),
                PointerEvent::Moved(Some(ms)) => final(self).dragging() == old(self).dragging()
                    && m == (if old(self).dragging() {
                    Some(TimelineMessage::DragMove(ms))
                } else {
                    None
                }),
                PointerEvent::LeftReleased => !final(self).dragging() && m == (if old(self).dragging() {
                    Some(TimelineMessage::DragEnd)
                } else {
                    None
                }),
                _ => final(self).dragging() == old(self).dragging() && m.is_none(),
            },
    {
        match event {
            PointerEvent::LeftPressed(Some(ms)) => {
                self.dragging = true;
                Some(TimelineMessage::Seek(ms))
            },
            PointerEvent::Moved(Some(ms)) => {
                if self.dragging {
                    Some(TimelineMessage::DragMove(ms))
                } else {
                    None
                }
            },
            PointerEvent::LeftReleased => {
                if self.dragging {
                    self.dragging = false;
                    Some(TimelineMessage::DragEnd)
                } else {
                    None
                }
            },
            _ => None,
        }
    }
}

impl Default for TimelineState {
    /// Not dragging.
    fn default() -> (s: Self)
        ensures
            !s.dragging(),
    {
        TimelineState::new()
    }
}

/// The markers from `t` on are `t, t + interval, ...`, each below
/// `duration_ms`, as many as fit.
proof fn lemma_markers_from(t: nat, interval: nat, duration_ms: nat)
    requires
        interval > 0,
        duration_ms <= u64::MAX,
    ensures
        forall|k: int|
            0 <= k < markers_from(t, interval, duration_ms).len() ==> markers_from(
                t,
                interval,
                duration_ms,
            )[k] == t + k * interval && #[trigger] markers_from(t, interval, duration_ms)[k]
                < duration_ms,
        t < duration_ms ==> markers_from(t, interval, duration_ms).len() > 0,
        t + markers_from(t, interval, duration_ms).len() * interval >= duration_ms,
    decreases (if t < duration_ms {
        duration_ms - t
    } else {
        0
    }),
{
    if t < duration_ms {
        lemma_markers_from(t + interval, interval, duration_ms);
        let rest = markers_from(t + interval, interval, duration_ms);
        let all = markers_from(t, interval, duration_ms);
        assert(all == seq![t as u64] + rest);
        assert forall|k: int| 0 <= k < all.len() implies all[k] == t + k * interval && #[trigger] all[k]
            < duration_ms by {
            if k > 0 {
                assert(all[k] == rest[k - 1]);
                assert(t + interval + (k - 1) * interval == t + k * interval) by (nonlinear_arith);
            }
        }
        assert(t + interval + rest.len() * interval == t + all.len() * interval) by (nonlinear_arith)
            requires all.len() == rest.len() + 1;
    }
}

/// The timeline's markers are evenly spaced by the marker interval,
/// starting one interval in, all before the end, and none is missing: one
/// more interval would reach the end.
pub proof fn law_markers_evenly_spaced(duration_ms: u64)
    requires
        duration_ms > 0,
    ensures
        ({
            let i = marker_interval(duration_ms) as nat;
            let m = markers_from(i, i, duration_ms as nat);
            &&& forall|k: int| 0 <= k < m.len() ==> #[trigger] m[k] == (k + 1) * i
            &&& forall|k: int| 0 <= k < m.len() ==> #[trigger] m[k] < duration_ms
            &&& (m.len() + 1) * i >= duration_ms
        }),
{
    let i = marker_interval(duration_ms) as nat;
    lemma_markers_from(i, i, duration_ms as nat);
    let m = markers_from(i, i, duration_ms as nat);
    assert forall|k: int| 0 <= k < m.len() implies #[trigger] m[k] == (k + 1) * i by {
        assert(i + k * i == (k + 1) * i) by (nonlinear_arith);
    }
    assert(i + m.len() * i == (m.len() + 1) * i) by (nonlinear_arith);
}

} // verus!
