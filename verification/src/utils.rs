//! Resolved run configuration.

use vstd::prelude::*;

verus! {

/// The configuration a run resolves before rendering: output name and size,
/// antialiasing sample count, recursion depth, worker count, animation flag.
#[derive(Clone, Debug)]
pub struct GeneralInfo {
    pub out_filename: String,
    pub out_width: u64,
    pub out_height: u64,
    pub aa_sampling: u64,
    pub ray_recursion: u64,
    pub threads: u64,
    pub animation: bool,
}

/// The bounds the renderer relies on: positive dimensions small enough for
/// index arithmetic, at least one worker.
pub open spec fn info_wf(i: GeneralInfo) -> bool {
    &&& 0 < i.out_width <= 0x10000
    &&& 0 < i.out_height <= 0x10000
    &&& i.aa_sampling <= 0x10000
    &&& i.ray_recursion <= 0x10000
    &&& 1 <= i.threads <= 0x10000
}

/// One worker's task: the band of the raster it renders and the frame.
#[derive(Clone, Copy, Debug, PartialEq, Eq, Structural)]
pub struct RenderInfo {
    pub width_start: u64,
    pub width_end: u64,
    pub height_start: u64,
    pub height_end: u64,
    pub frame: u64,
}

} // verus!
