//! Render settings. The settings proper carry floating-point gamma and crop
//! values and live with the renderer; the file type and the resize rule are here.
use vstd::prelude::*;

verus! {

/// The image format that a render is written in.
#[derive(Clone, Copy, Debug, PartialEq, Eq, Structural)]
pub enum PipelineOutFile {
    JPEG,
    WEBP,
}

/// Whether a render is resized: only when both target dimensions are given.
pub fn to_be_resized(target_width: u32, target_height: u32) -> (r: bool)
    ensures
        r == (target_width > 0 && target_height > 0),
{
    target_width > 0 && target_height > 0
}

} // verus!
