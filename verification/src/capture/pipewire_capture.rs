//! Video frames delivered by the screen capture.

use vstd::prelude::*;

verus! {

/// Pixel layout of a captured frame (all four bytes per pixel).
#[derive(Debug, Clone, Copy, PartialEq, Eq)]
#[allow(non_camel_case_types)]
pub enum PixelFormat {
    BGRA,
    RGBA,
    BGRx,
}

impl PixelFormat {
    /// Bytes per pixel: 4 for every supported layout.
    pub fn bytes_per_pixel(self) -> (n: u32)
        ensures
            n == 4,
    {
        4
    }
}

/// One captured frame: `height` rows of `stride` bytes.
#[derive(Debug, Clone, PartialEq, Eq)]
pub struct VideoFrame {
    pub width: u32,
    pub height: u32,
    pub stride: u32,
    pub format: PixelFormat,
    pub data: Vec<u8>,
    pub timestamp_ms: u64,
}

impl VideoFrame {
    /// Bytes the frame should hold: `stride * height`.
    pub fn expected_size(&self) -> (n: usize)
        requires
            self.stride * self.height <= usize::MAX,
        ensures
            n == self.stride * self.height,
    {
        self.stride as usize * self.height as usize
    }
}

/// The row stride of a frame: the stride the buffer reports, or
/// `width * bytes_per_pixel` when it reports none.
pub fn frame_stride(reported: u32, width: u32, format: PixelFormat) -> (s: u32)
    requires
        reported == 0 ==> width * 4 <= u32::MAX,
    ensures
        s == if reported > 0 {
            reported
        } else {
            (width * 4) as u32
        },
{
    if reported > 0 {
        reported
    } else {
        width * format.bytes_per_pixel()
    }
}

/// The byte range of a buffer chunk inside the mapped memory, or `None`
/// for an empty chunk or one that reaches past the mapping.
pub fn chunk_range(offset: usize, size: usize, mapped_len: usize) -> (r: Option<(usize, usize)>)
    requires
        offset + size <= usize::MAX,
    ensures
        r == (if size == 0 || offset + size > mapped_len {
            None
        } else {
            Some((offset, (offset + size) as usize))
        }),
{
    if size == 0 {
        None
    } else if offset + size > mapped_len {
        None
    } else {
        Some((offset, offset + size))
    }
}

} // verus!
