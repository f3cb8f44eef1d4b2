//! The GPU effect pipeline: its shader sources.

use vstd::prelude::*;

verus! {

/// Zoom shader, relative to the project root.
pub const ZOOM_SHADER: &'static str = "shaders/zoom.wgsl";

/// Blur shader, relative to the project root.
pub const BLUR_SHADER: &'static str = "shaders/blur.wgsl";

/// Shadow shader, relative to the project root.
pub const SHADOW_SHADER: &'static str = "shaders/shadow.wgsl";

/// Motion-blur shader, relative to the project root.
pub const MOTION_BLUR_SHADER: &'static str = "shaders/motion_blur.wgsl";

/// The effect pipeline. It holds no GPU state yet.
pub struct ShaderPipeline {
    _placeholder: (),
}

impl ShaderPipeline {
    /// An effect pipeline.
    pub fn new() -> Self {
        ShaderPipeline { _placeholder: () }
    }
}

} // verus!
