//! The rasterizer boundary: accepted triangles are collected here for the
//! (out-of-scope) rasterizer to consume, and the texture-padding helper used
//! when feeding it tile data.
use vstd::prelude::*;

use crate::image::{padding_for_texture, spec_padding, ImageSize};
use crate::rsp::StagingVertex;

verus! {

/// The rasterizer-facing state: the triples of staging vertices that survived
/// clip rejection and culling, in submission order.
pub struct RDP {
    pub accepted_triangles: Vec<[StagingVertex; 3]>,
}

impl RDP {
    pub fn new() -> (r: RDP)
        ensures
            r.accepted_triangles@.len() == 0,
    {
        RDP { accepted_triangles: Vec::new() }
    }
}


/// Row padding for a texture tile handed to the rasterizer: the same
/// stride/bit-depth/width formula as the decoder side.
pub fn tex_pad_width(size: ImageSize, line: u32, width: u32) -> (r: i32)
    requires
        line <= 0x7_FFFF,
        width <= 0x1000_0000,
    ensures
        r as int == spec_padding(size.spec_code(), line as int, width as int),
{
    padding_for_texture(size, line, width)
}

} // verus!
