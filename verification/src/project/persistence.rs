//! The persisted project record and the segment types that the editor
//! and the exporter share.
//!
//! Single-precision values of the project (zoom level, focus point,
//! annotation position) are held as their IEEE-754 bit patterns
//! (`f32::to_bits`); the logic here only stores and copies them, and `==`
//! compares them as `f32` values (the two zeros equal, a NaN unequal to
//! everything).

use vstd::prelude::*;
use std::path::PathBuf;
use uuid::Uuid;
use crate::capture::cursor::CursorPosition;
use crate::editor::speed::{f32_bits_eq, f32_bits_equal, SpeedSegment};

verus! {

/// A removed stretch of the recording, `[start_ms, end_ms)`.
#[derive(Debug, Clone, Copy, PartialEq, Eq, Structural)]
pub struct TrimSegment {
    pub start_ms: u64,
    pub end_ms: u64,
}

impl TrimSegment {
    /// Whether `position_ms` falls inside the segment (start inclusive, end exclusive).
    pub open spec fn covers(self, position_ms: u64) -> bool {
        self.start_ms <= position_ms && position_ms < self.end_ms
    }
}

/// A zoomed stretch of the recording. `level`, `focus_x` and `focus_y`
/// are `f32` bit patterns.
#[derive(Debug, Clone, Copy)]
pub struct ZoomRegion {
    pub start_ms: u64,
    pub end_ms: u64,
    pub level: u32,
    pub focus_x: u32,
    pub focus_y: u32,
}

/// Whether two zoom regions compare equal: equal bounds, and level and
/// focus equal as `f32`.
pub open spec fn zoom_regions_eq(a: ZoomRegion, b: ZoomRegion) -> bool {
    a.start_ms == b.start_ms && a.end_ms == b.end_ms && f32_bits_eq(a.level, b.level)
        && f32_bits_eq(a.focus_x, b.focus_x) && f32_bits_eq(a.focus_y, b.focus_y)
}

impl PartialEq for ZoomRegion {
    /// Equal bounds, and level and focus that compare equal as `f32`.
    fn eq(&self, other: &Self) -> (r: bool) {
        self.start_ms == other.start_ms && self.end_ms == other.end_ms && f32_bits_equal(
            self.level,
            other.level,
        ) && f32_bits_equal(self.focus_x, other.focus_x) && f32_bits_equal(
            self.focus_y,
            other.focus_y,
        )
    }
}

impl vstd::std_specs::cmp::PartialEqSpecImpl for ZoomRegion {
    open spec fn obeys_eq_spec() -> bool {
        true
    }

    open spec fn eq_spec(&self, other: &Self) -> bool {
        zoom_regions_eq(*self, *other)
    }
}

/// What an annotation shows.
#[derive(Debug, Clone, Copy, PartialEq, Eq, Structural)]
pub enum AnnotationKind {
    Text,
    Arrow,
    Image,
}

/// An overlay shown during `[start_ms, end_ms)` at position `(x, y)`
/// (`f32` bit patterns).
#[derive(Debug, Clone)]
pub struct Annotation {
    pub kind: AnnotationKind,
    pub start_ms: u64,
    pub end_ms: u64,
    pub x: u32,
    pub y: u32,
    pub content: String,
}

/// Whether two annotations compare equal: same kind, times and content,
/// and positions equal as `f32`.
pub open spec fn annotations_eq(a: Annotation, b: Annotation) -> bool {
    a.kind == b.kind && a.start_ms == b.start_ms && a.end_ms == b.end_ms && f32_bits_eq(a.x, b.x)
        && f32_bits_eq(a.y, b.y) && a.content@ == b.content@
}

impl PartialEq for Annotation {
    /// Same kind, times and content, and positions that compare equal as `f32`.
    fn eq(&self, other: &Self) -> (r: bool) {
        self.kind == other.kind && self.start_ms == other.start_ms && self.end_ms == other.end_ms
            && f32_bits_equal(self.x, other.x) && f32_bits_equal(self.y, other.y) && self.content
            == other.content
    }
}

impl vstd::std_specs::cmp::PartialEqSpecImpl for Annotation {
    open spec fn obeys_eq_spec() -> bool {
        true
    }

    open spec fn eq_spec(&self, other: &Self) -> bool {
        annotations_eq(*self, *other)
    }
}

impl Annotation {
    /// Whether the annotation is on screen at `position_ms`.
    pub open spec fn shown_at(self, position_ms: u64) -> bool {
        self.start_ms <= position_ms && position_ms < self.end_ms
    }

    /// An equal copy of the annotation.
    pub fn duplicate(&self) -> (copy: Self)
        ensures
            copy == *self,
    {
        Annotation {
            kind: self.kind,
            start_ms: self.start_ms,
            end_ms: self.end_ms,
            x: self.x,
            y: self.y,
            content: self.content.clone(),
        }
    }
}


/// A UUID of the `uuid` crate, carried through as an opaque value.
#[verifier::external_type_specification]
#[verifier::external_body]
pub struct ExUuid(uuid::Uuid);

/// A file-system path, carried through as an opaque value.
#[verifier::external_type_specification]
#[verifier::external_body]
pub struct ExPathBuf(std::path::PathBuf);

/// `uuid::Uuid::new_v4`: a random version-4 UUID; nothing is claimed of its value.
pub assume_specification[ uuid::Uuid::new_v4 ]() -> Uuid;

/// `chrono::Utc::now` followed by `DateTime::to_rfc3339`: the current UTC
/// time as an RFC 3339 string. (Verus does not accept `chrono::DateTime`
/// in a signature, its parameter is bounded by an outside trait, so the two
/// calls share this item.) The text depends on the clock; the source of
/// `to_rfc3339` always writes the date, so it is not empty.
#[verifier::external_body]
fn utc_now_rfc3339() -> (text: String)
    ensures
        text@.len() > 0,
{
    chrono::Utc::now().to_rfc3339()
}

/// A recording project: the source video, the recorded cursor track and
/// every edit made to it.
pub struct Project {
    pub id: Uuid,
    pub name: String,
    pub created_at: String,
    pub updated_at: String,
    pub source_video: PathBuf,
    pub cursor_data: Vec<CursorPosition>,
    pub duration_ms: u64,
    pub zoom_regions: Vec<ZoomRegion>,
    pub annotations: Vec<Annotation>,
    pub trim_segments: Vec<TrimSegment>,
    pub speed_segments: Vec<SpeedSegment>,
}

impl Project {
    /// A fresh project with a random id, created and updated now, and no edits.
    pub fn new(name: String, source_video: PathBuf, duration_ms: u64) -> (p: Self)
        ensures
            p.name@ == name@,
            p.source_video == source_video,
            p.duration_ms == duration_ms,
            p.created_at@.len() > 0,
            p.updated_at@ == p.created_at@,
            p.cursor_data@.len() == 0,
            p.zoom_regions@.len() == 0,
            p.annotations@.len() == 0,
            p.trim_segments@.len() == 0,
            p.speed_segments@.len() == 0,
    {
        let now = utc_now_rfc3339();
        Project {
            id: Uuid::new_v4(),
            name,
            created_at: now.clone(),
            updated_at: now,
            source_video,
            cursor_data: Vec::new(),
            duration_ms,
            zoom_regions: Vec::new(),
            annotations: Vec::new(),
            trim_segments: Vec::new(),
            speed_segments: Vec::new(),
        }
    }
}

} // verus!
