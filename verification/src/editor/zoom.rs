//! Timing of zoom regions and lookup in the recorded cursor track.
//!
//! The scale and offsets of a zoom are computed in floating point by the
//! caller from the phase found here; likewise cursor positions are
//! interpolated or averaged by the caller over the samples found here.

use vstd::prelude::*;
use crate::capture::cursor::CursorPosition;

verus! {

/// Length of the ease into and out of a zoom region, in milliseconds.
pub const TRANSITION_MS: u64 = 300;

/// Number of cursor samples averaged for smoothing.
pub const SMOOTHING_WINDOW: usize = 5;

/// Where a position lies relative to a zoom region.
#[derive(Debug, Clone, Copy, PartialEq, Eq)]
pub enum ZoomPhase {
    /// Before the lead-in or after the lead-out: no zoom.
    Outside,
    /// In the lead-in, this many milliseconds after it began.
    Entering(u64),
    /// Inside the region (end inclusive): full zoom.
    Inside,
    /// In the lead-out, this many milliseconds after the region ended.
    Leaving(u64),
}

/// The phase of `position_ms` for a region `[start_ms, end_ms]` with a lead-in
/// of up to `TRANSITION_MS` (cut short at 0) and a lead-out of `TRANSITION_MS`.
pub open spec fn phase_of(start_ms: u64, end_ms: u64, position_ms: u64) -> ZoomPhase {
    let lead_in = if start_ms >= TRANSITION_MS {
        start_ms - TRANSITION_MS
    } else {
        0
    };
    let lead_out = end_ms + TRANSITION_MS;
    if position_ms < lead_in || position_ms > lead_out {
        ZoomPhase::Outside
    } else if position_ms < start_ms {
        ZoomPhase::Entering((position_ms - lead_in) as u64)
    } else if position_ms <= end_ms {
        ZoomPhase::Inside
    } else {
        ZoomPhase::Leaving((position_ms - end_ms) as u64)
    }
}

/// The phase of `position_ms` relative to the region `[start_ms, end_ms]`.
pub fn zoom_phase(start_ms: u64, end_ms: u64, position_ms: u64) -> (p: ZoomPhase)
    requires
        end_ms + TRANSITION_MS <= u64::MAX,
    ensures
        p == phase_of(start_ms, end_ms, position_ms),
{
    let lead_in = start_ms.saturating_sub(TRANSITION_MS);
    let lead_out = end_ms + TRANSITION_MS;
    if position_ms < lead_in || position_ms > lead_out {
        ZoomPhase::Outside
    } else if position_ms < start_ms {
        ZoomPhase::Entering(position_ms - lead_in)
    } else if position_ms <= end_ms {
        ZoomPhase::Inside
    } else {
        ZoomPhase::Leaving(position_ms - end_ms)
    }
}

/// The lead-in and lead-out never last longer than `TRANSITION_MS`.
pub proof fn law_transition_bounded(start_ms: u64, end_ms: u64, position_ms: u64)
    requires
        end_ms + TRANSITION_MS <= u64::MAX,
    ensures
        phase_of(start_ms, end_ms, position_ms) matches ZoomPhase::Entering(e) ==> e
            < TRANSITION_MS,
        phase_of(start_ms, end_ms, position_ms) matches ZoomPhase::Leaving(e) ==> 0 < e
            <= TRANSITION_MS,
        start_ms <= position_ms <= end_ms ==> phase_of(start_ms, end_ms, position_ms)
            == ZoomPhase::Inside,
{
}

/// A split point of the cursor track at `timestamp_ms`: every sample before
/// it is not later than the time stamp and the sample at it is later.
pub open spec fn is_split_point(data: Seq<CursorPosition>, timestamp_ms: u64, idx: int) -> bool {
    &&& 0 <= idx <= data.len()
    &&& idx > 0 ==> data[idx - 1].timestamp_ms <= timestamp_ms
    &&& idx < data.len() ==> data[idx].timestamp_ms > timestamp_ms
}

/// Whether the samples are in time order.
pub open spec fn time_ordered(data: Seq<CursorPosition>) -> bool {
    forall|i: int, j: int| 0 <= i <= j < data.len() ==> data[i].timestamp_ms <= data[j].timestamp_ms
}

/// Binary search for a split point at `timestamp_ms` (for a track in time
/// order: the number of samples not later than the time stamp).
pub fn cursor_partition_point(data: &[CursorPosition], timestamp_ms: u64) -> (idx: usize)
    ensures
        is_split_point(data@, timestamp_ms, idx as int),
        time_ordered(data@) ==> forall|i: int|
            0 <= i < data@.len() ==> (i < idx <==> data@[i].timestamp_ms <= timestamp_ms),
{
    let mut lo: usize = 0;
    let mut hi: usize = data.len();
    while lo < hi
        invariant
            0 <= lo <= hi <= data@.len(),
            lo > 0 ==> data@[lo - 1].timestamp_ms <= timestamp_ms,
            hi < data@.len() ==> data@[hi as int].timestamp_ms > timestamp_ms,
            time_ordered(data@) ==> forall|i: int| 0 <= i < lo ==> data@[i].timestamp_ms <= timestamp_ms,
            time_ordered(data@) ==> forall|i: int|
                hi <= i < data@.len() ==> data@[i].timestamp_ms > timestamp_ms,
        decreases hi - lo,
    {
        let mid = lo + (hi - lo) / 2;
        if data[mid].timestamp_ms <= timestamp_ms {
            lo = mid + 1;
        } else {
            hi = mid;
        }
    }
    lo
}

/// Where a time stamp falls in the cursor track.
#[derive(Debug, Clone, Copy, PartialEq, Eq)]
pub enum CursorLocation {
    /// No samples.
    Empty,
    /// At (or clamped to) the sample with this index.
    At(usize),
    /// Strictly between the samples `before` and `after = before + 1`,
    /// whose time stamps differ.
    Between { before: usize, after: usize },
}

/// Finds the samples to interpolate the cursor at `timestamp_ms` from: none
/// without samples; the first sample at or before its time; the last at or
/// after its time; otherwise the two neighbours around a split point.
pub fn locate_cursor(data: &[CursorPosition], timestamp_ms: u64) -> (loc: CursorLocation)
    ensures
        data@.len() == 0 <==> loc == CursorLocation::Empty,
        data@.len() > 0 && timestamp_ms <= data@[0].timestamp_ms ==> loc == CursorLocation::At(0),
        data@.len() > 0 && timestamp_ms > data@[0].timestamp_ms && timestamp_ms
            >= data@.last().timestamp_ms ==> loc == CursorLocation::At((data@.len() - 1) as usize),
        loc matches CursorLocation::Between { before, after } ==> {
            &&& data@.len() > 0
            &&& data@[0].timestamp_ms < timestamp_ms < data@.last().timestamp_ms
            &&& after == before + 1
            &&& is_split_point(data@, timestamp_ms, after as int)
            &&& data@[before as int].timestamp_ms <= timestamp_ms < data@[after as int].timestamp_ms
        },
        data@.len() > 0 && data@[0].timestamp_ms < timestamp_ms < data@.last().timestamp_ms
            ==> loc is Between,
{
    if data.len() == 0 {
        return CursorLocation::Empty;
    }
    if timestamp_ms <= data[0].timestamp_ms {
        return CursorLocation::At(0);
    }
    let last = data.len() - 1;
    if timestamp_ms >= data[last].timestamp_ms {
        return CursorLocation::At(last);
    }
    let idx = cursor_partition_point(data, timestamp_ms);
    CursorLocation::Between { before: idx - 1, after: idx }
}

/// The samples averaged for the smoothed cursor at split point `idx`:
/// the up to `SMOOTHING_WINDOW` samples before it.
pub fn smoothing_window(idx: usize, len: usize) -> (w: (usize, usize))
    ensures
        w.1 == if idx < len { idx } else { len },
        w.0 == if idx >= SMOOTHING_WINDOW { (idx - SMOOTHING_WINDOW) as usize } else { 0 },
{
    let start = idx.saturating_sub(SMOOTHING_WINDOW);
    let end = if idx < len { idx } else { len };
    (start, end)
}

} // verus!
