//! What the editor window shows, apart from drawing: which controls are
//! active and what the timeline is given.

use vstd::prelude::*;
use crate::editor::state::EditorTool;
use crate::editor::timeline;
use crate::project::persistence::{TrimSegment, ZoomRegion};

verus! {

/// What the editor window asks of the editor. A speed is an `f32` bit
/// pattern.
#[derive(Debug, Clone, Copy)]
pub enum EditorMessage {
    SelectTool(EditorTool),
    TogglePlayback,
    SetSpeed(u32),
    TimelineSeek(u64),
    Export,
    Back,
}

/// Playback speed presets: 0.5, 1.0 and 2.0 (`f32` bit patterns).
pub const SPEED_PRESETS: [u32; 3] = [0x3F00_0000, 0x3F80_0000, 0x4000_0000];

/// A tool button is active (pressable) unless its tool is the selected one.
pub fn tool_button_active(tool: EditorTool, selected: EditorTool) -> (b: bool)
    ensures
        b == (tool != selected),
{
    match (tool, selected) {
        (EditorTool::Select, EditorTool::Select) => false,
        (EditorTool::Trim, EditorTool::Trim) => false,
        (EditorTool::Zoom, EditorTool::Zoom) => false,
        (EditorTool::Annotate, EditorTool::Annotate) => false,
        _ => true,
    }
}

/// Label of the play button: pause while playing, play otherwise.
pub fn play_label(is_playing: bool) -> (s: &'static str)
    ensures
        s@ == (if is_playing { "Пауза"@ } else { "Воспр."@ }),
{
    if is_playing {
        "Пауза"
    } else {
        "Воспр."
    }
}

/// The trimmed ranges as the timeline draws them.
pub fn timeline_trims(trims: &[TrimSegment]) -> (t: Vec<timeline::TrimSegment>)
    ensures
        t@.len() == trims@.len(),
        forall|i: int|
            0 <= i < trims@.len() ==> #[trigger] t@[i] == (timeline::TrimSegment {
                start_ms: trims@[i].start_ms,
                end_ms: trims@[i].end_ms,
            }),
{
    let mut t: Vec<timeline::TrimSegment> = Vec::new();
    let mut i: usize = 0;
    while i < trims.len()
        invariant
            i <= trims@.len(),
            t@.len() == i,
            forall|j: int|
                0 <= j < i ==> #[trigger] t@[j] == (timeline::TrimSegment {
                    start_ms: trims@[j].start_ms,
                    end_ms: trims@[j].end_ms,
                }),
        decreases trims@.len() - i,
    {
        t.push(timeline::TrimSegment { start_ms: trims[i].start_ms, end_ms: trims[i].end_ms });
        i = i + 1;
    }
    t
}

/// The zoom regions as the timeline draws them.
pub fn timeline_zoom_regions(regions: &[ZoomRegion]) -> (t: Vec<timeline::ZoomRegion>)
    ensures
        t@.len() == regions@.len(),
        forall|i: int|
            0 <= i < regions@.len() ==> #[trigger] t@[i] == (timeline::ZoomRegion {
                start_ms: regions@[i].start_ms,
                end_ms: regions@[i].end_ms,
            }),
{
    let mut t: Vec<timeline::ZoomRegion> = Vec::new();
    let mut i: usize = 0;
    while i < regions.len()
        invariant
            i <= regions@.len(),
            t@.len() == i,
            forall|j: int|
                0 <= j < i ==> #[trigger] t@[j] == (timeline::ZoomRegion {
                    start_ms: regions@[j].start_ms,
                    end_ms: regions@[j].end_ms,
                }),
        decreases regions@.len() - i,
    {
        t.push(timeline::ZoomRegion { start_ms: regions[i].start_ms, end_ms: regions[i].end_ms });
        i = i + 1;
    }
    t
}

/// The time of a seek or drag; 0 for the start or end of a drag.
pub open spec fn seek_target_of(msg: timeline::TimelineMessage) -> u64 {
    match msg {
        timeline::TimelineMessage::Seek(t) => t,
        timeline::TimelineMessage::DragMove(t) => t,
        _ => 0u64,
    }
}

/// The seek position the editor takes from a timeline message: the time of
/// a seek or drag, and 0 for the start or end of a drag.
pub fn seek_target(msg: timeline::TimelineMessage) -> (ms: u64)
    ensures
        ms == seek_target_of(msg),
{
    match msg {
        timeline::TimelineMessage::Seek(t) => t,
        timeline::TimelineMessage::DragMove(t) => t,
        timeline::TimelineMessage::DragStart => 0,
        timeline::TimelineMessage::DragEnd => 0,
    }
}

/// The editor message of a timeline message: a seek to its time.
pub fn timeline_message(msg: timeline::TimelineMessage) -> (m: EditorMessage)
    ensures
        m == EditorMessage::TimelineSeek(seek_target_of(msg)),
{
    EditorMessage::TimelineSeek(seek_target(msg))
}

} // verus!
