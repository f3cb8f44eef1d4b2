//! The capture source chosen through the desktop portal.

use vstd::prelude::*;

verus! {

/// Kind of captured source.
#[derive(Debug, Clone, Copy, PartialEq, Eq)]
pub enum CaptureSourceType {
    Monitor,
    Window,
}

/// Source kind as the portal reports it.
#[derive(Debug, Clone, Copy, PartialEq, Eq)]
pub enum PortalSourceKind {
    Monitor,
    Window,
    Virtual,
}

/// The chosen source: its PipeWire node, its kind and, when known, its size.
#[derive(Debug, Clone, Copy, PartialEq, Eq)]
pub struct SelectedSource {
    pub node_id: u32,
    pub source_type: CaptureSourceType,
    pub size: Option<(i32, i32)>,
}

/// The source kind of a portal stream: a window stays a window, anything
/// else (or nothing) counts as a monitor.
pub fn source_type_from(kind: Option<PortalSourceKind>) -> (t: CaptureSourceType)
    ensures
        t == (if kind == Some(PortalSourceKind::Window) {
            CaptureSourceType::Window
        } else {
            CaptureSourceType::Monitor
        }),
{
    match kind {
        Some(PortalSourceKind::Monitor) => CaptureSourceType::Monitor,
        Some(PortalSourceKind::Window) => CaptureSourceType::Window,
        _ => CaptureSourceType::Monitor,
    }
}

impl SelectedSource {
    /// The source described by a portal stream's node, kind and size.
    pub fn from_stream_parts(node_id: u32, kind: Option<PortalSourceKind>, size: Option<(i32, i32)>) -> (s: Self)
        ensures
            s.node_id == node_id,
            s.source_type == (if kind == Some(PortalSourceKind::Window) {
                CaptureSourceType::Window
            } else {
                CaptureSourceType::Monitor
            }),
            s.size == size,
    {
        SelectedSource { node_id, source_type: source_type_from(kind), size }
    }

    /// The frame size to record: the reported size, 1920x1080 when unknown,
    /// each side reinterpreted as unsigned.
    pub fn capture_size(&self) -> (wh: (u32, u32))
        ensures
            wh == (match self.size {
                Some((w, h)) => (w as u32, h as u32),
                None => (1920u32, 1080u32),
            }),
    {
        let (w, h) = match self.size {
            Some(s) => s,
            None => (1920, 1080),
        };
        (#[verifier::truncate] (w as u32), #[verifier::truncate] (h as u32))
    }
}

} // verus!
