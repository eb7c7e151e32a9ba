//! The F3DEX2 microcode variant: its opcode values, its handler set, and the
//! contract of each handler.
use vstd::prelude::*;

use crate::gbi::defines::G_MTX_PUSH;
use crate::gbi::utils::{get_c0, spec_get_c0};
use crate::gbi::{GBIResult, GBI};
use crate::rcp::{spec_resolve, SegmentTable};
use crate::rdp::RDP;
use crate::rsp::{
    gsp_matrix_rel, gsp_vertex_rel, spec_gsp_vertex_check, spec_triangle_kept, RSP,
    VERTEX_TABLE_SIZE,
};
use crate::GfxError;

verus! {

/// The opcode bytes of this microcode variant.
#[derive(Clone, Copy, Debug)]
pub enum F3DEX2 {
    // DMA
    G_VTX,
    G_MODIFYVTX,
    G_CULLDL,
    G_BRANCH_Z,
    G_TRI1,
    G_TRI2,
    G_QUAD,
    G_LINE3D,
    G_TEXTURE,
    G_POPMTX,
    G_GEOMETRYMODE,
    G_MTX,
    G_LOAD_UCODE,
    G_DL,
    G_ENDDL,
    // RDP
    G_SETCIMG,
    G_SETZIMG,
    G_SETTIMG,
    G_SETCOMBINE,
    G_SETENVCOLOR,
    G_SETPRIMCOLOR,
    G_SETBLENDCOLOR,
    G_SETFOGCOLOR,
    G_SETFILLCOLOR,
    G_FILLRECT,
    G_SETTILE,
    G_LOADTILE,
    G_LOADBLOCK,
    G_SETTILESIZE,
    G_LOADTLUT,
    G_RDPSETOTHERMODE,
    G_SETPRIMDEPTH,
    G_SETSCISSOR,
    G_SETCONVERT,
    G_SETKEYR,
    G_SETKEYFB,
    G_RDPFULLSYNC,
    G_RDPTILESYNC,
    G_RDPPIPESYNC,
    G_RDPLOADSYNC,
    G_TEXRECTFLIP,
    G_TEXRECT,
    G_SETOTHERMODE_H,
    G_SETOTHERMODE_L,
}

impl F3DEX2 {
    /// The opcode byte of this command.
    pub fn opcode(self) -> (r: u8)
        ensures
            r == self.spec_opcode(),
    {
        match self {
            F3DEX2::G_VTX => 0x01,
            F3DEX2::G_MODIFYVTX => 0x02,
            F3DEX2::G_CULLDL => 0x03,
            F3DEX2::G_BRANCH_Z => 0x04,
            F3DEX2::G_TRI1 => 0x05,
            F3DEX2::G_TRI2 => 0x06,
            F3DEX2::G_QUAD => 0x07,
            F3DEX2::G_LINE3D => 0x08,
            F3DEX2::G_TEXTURE => 0xD7,
            F3DEX2::G_POPMTX => 0xD8,
            F3DEX2::G_GEOMETRYMODE => 0xD9,
            F3DEX2::G_MTX => 0xDA,
            F3DEX2::G_LOAD_UCODE => 0xDD,
            F3DEX2::G_DL => 0xDE,
            F3DEX2::G_ENDDL => 0xDF,
            F3DEX2::G_SETCIMG => 0xFF,
            F3DEX2::G_SETZIMG => 0xFE,
            F3DEX2::G_SETTIMG => 0xFD,
            F3DEX2::G_SETCOMBINE => 0xFC,
            F3DEX2::G_SETENVCOLOR => 0xFB,
            F3DEX2::G_SETPRIMCOLOR => 0xFA,
            F3DEX2::G_SETBLENDCOLOR => 0xF9,
            F3DEX2::G_SETFOGCOLOR => 0xF8,
            F3DEX2::G_SETFILLCOLOR => 0xF7,
            F3DEX2::G_FILLRECT => 0xF6,
            F3DEX2::G_SETTILE => 0xF5,
            F3DEX2::G_LOADTILE => 0xF4,
            F3DEX2::G_LOADBLOCK => 0xF3,
            F3DEX2::G_SETTILESIZE => 0xF2,
            F3DEX2::G_LOADTLUT => 0xF0,
            F3DEX2::G_RDPSETOTHERMODE => 0xEF,
            F3DEX2::G_SETPRIMDEPTH => 0xEE,
            F3DEX2::G_SETSCISSOR => 0xED,
            F3DEX2::G_SETCONVERT => 0xEC,
            F3DEX2::G_SETKEYR => 0xEB,
            F3DEX2::G_SETKEYFB => 0xEA,
            F3DEX2::G_RDPFULLSYNC => 0xE9,
            F3DEX2::G_RDPTILESYNC => 0xE8,
            F3DEX2::G_RDPPIPESYNC => 0xE7,
            F3DEX2::G_RDPLOADSYNC => 0xE6,
            F3DEX2::G_TEXRECTFLIP => 0xE5,
            F3DEX2::G_TEXRECT => 0xE4,
            F3DEX2::G_SETOTHERMODE_H => 0xE3,
            F3DEX2::G_SETOTHERMODE_L => 0xE2,
        }
    }

    pub open spec fn spec_opcode(self) -> u8 {
        match self {
            F3DEX2::G_VTX => 0x01,
            F3DEX2::G_MODIFYVTX => 0x02,
            F3DEX2::G_CULLDL => 0x03,
            F3DEX2::G_BRANCH_Z => 0x04,
            F3DEX2::G_TRI1 => 0x05,
            F3DEX2::G_TRI2 => 0x06,
            F3DEX2::G_QUAD => 0x07,
            F3DEX2::G_LINE3D => 0x08,
            F3DEX2::G_TEXTURE => 0xD7,
            F3DEX2::G_POPMTX => 0xD8,
            F3DEX2::G_GEOMETRYMODE => 0xD9,
            F3DEX2::G_MTX => 0xDA,
            F3DEX2::G_LOAD_UCODE => 0xDD,
            F3DEX2::G_DL => 0xDE,
            F3DEX2::G_ENDDL => 0xDF,
            F3DEX2::G_SETCIMG => 0xFF,
            F3DEX2::G_SETZIMG => 0xFE,
            F3DEX2::G_SETTIMG => 0xFD,
            F3DEX2::G_SETCOMBINE => 0xFC,
            F3DEX2::G_SETENVCOLOR => 0xFB,
            F3DEX2::G_SETPRIMCOLOR => 0xFA,
            F3DEX2::G_SETBLENDCOLOR => 0xF9,
            F3DEX2::G_SETFOGCOLOR => 0xF8,
            F3DEX2::G_SETFILLCOLOR => 0xF7,
            F3DEX2::G_FILLRECT => 0xF6,
            F3DEX2::G_SETTILE => 0xF5,
            F3DEX2::G_LOADTILE => 0xF4,
            F3DEX2::G_LOADBLOCK => 0xF3,
            F3DEX2::G_SETTILESIZE => 0xF2,
            F3DEX2::G_LOADTLUT => 0xF0,
            F3DEX2::G_RDPSETOTHERMODE => 0xEF,
            F3DEX2::G_SETPRIMDEPTH => 0xEE,
            F3DEX2::G_SETSCISSOR => 0xED,
            F3DEX2::G_SETCONVERT => 0xEC,
            F3DEX2::G_SETKEYR => 0xEB,
            F3DEX2::G_SETKEYFB => 0xEA,
            F3DEX2::G_RDPFULLSYNC => 0xE9,
            F3DEX2::G_RDPTILESYNC => 0xE8,
            F3DEX2::G_RDPPIPESYNC => 0xE7,
            F3DEX2::G_RDPLOADSYNC => 0xE6,
            F3DEX2::G_TEXRECTFLIP => 0xE5,
            F3DEX2::G_TEXRECT => 0xE4,
            F3DEX2::G_SETOTHERMODE_H => 0xE3,
            F3DEX2::G_SETOTHERMODE_L => 0xE2,
        }
    }
}

/// The call-display-list decision: operand 0 calls into the (segment-
/// resolved) target and resumes afterward; a nonzero operand transfers
/// control to the target outright.
pub open spec fn displaylist_rel(
    seg: Seq<u32>,
    w0: u32,
    w1: u32,
    out: Result<GBIResult, GfxError>,
) -> bool {
    match spec_resolve(seg, w1) {
        Err(e) => out == Err::<GBIResult, GfxError>(e),
        Ok(a) => out == Ok::<GBIResult, GfxError>(
            if spec_get_c0(w0, 16, 1) == 0 {
                GBIResult::Recurse(a)
            } else {
                GBIResult::SetAddressWithDecrease(a)
            },
        ),
    }
}

/// The geometry-mode mutation: clear the 24-bit mask from the first word,
/// set the bits of the second word, and mark the lighting state dirty.
pub open spec fn geometry_mode_rel(
    pre: RSP,
    post: RSP,
    w0: u32,
    w1: u32,
    out: Result<GBIResult, GfxError>,
) -> bool {
    &&& out == Ok::<GBIResult, GfxError>(GBIResult::Continue)
    &&& post.geometry_mode == (pre.geometry_mode & !spec_get_c0(w0, 0, 24)) | w1
    &&& post.state_changed == true
    &&& post.modelview_index == pre.modelview_index
    &&& post.modelview_matrix == pre.modelview_matrix
    &&& post.model_projection_matrix == pre.model_projection_matrix
    &&& post.projection_matrix == pre.projection_matrix
    &&& post.vertex_table == pre.vertex_table
    &&& post.current_num_lights == pre.current_num_lights
    &&& post.current_lights == pre.current_lights
    &&& post.current_lights_coeffs == pre.current_lights_coeffs
    &&& post.current_lookat_coeffs == pre.current_lookat_coeffs
    &&& post.texture_scaling_factor == pre.texture_scaling_factor
    &&& post.fog_multiplier == pre.fog_multiplier
    &&& post.fog_offset == pre.fog_offset
}

/// The vertex command: resolve the source address, take the count and the
/// first destination slot from the first word, and run the vertex transform.
pub open spec fn vertex_rel(
    pre: RSP,
    post: RSP,
    seg: Seq<u32>,
    mem: Seq<u8>,
    w0: u32,
    w1: u32,
    out: Result<GBIResult, GfxError>,
) -> bool {
    match spec_resolve(seg, w1) {
        Err(e) => out == Err::<GBIResult, GfxError>(e) && post == pre,
        Ok(a) => {
            let count = spec_get_c0(w0, 12, 8) as usize;
            let end = spec_get_c0(w0, 1, 7);
            if end < count as u32 {
                out == Err::<GBIResult, GfxError>(GfxError::VertexIndexOutOfRange) && post == pre
            } else {
                let dest = (end - count as u32) as usize;
                let inner = spec_gsp_vertex_check(pre, mem, a, count, dest);
                &&& gsp_vertex_rel(pre, post, mem, a, count, dest, inner)
                &&& out == match inner {
                    Ok(()) => Ok::<GBIResult, GfxError>(GBIResult::Continue),
                    Err(e) => Err::<GBIResult, GfxError>(e),
                }
            }
        },
    }
}

/// The matrix command: resolve the matrix address, flip the push flag in the
/// parameter byte (the encoding stores it inverted), and apply the matrix.
pub open spec fn matrix_rel(
    pre: RSP,
    post: RSP,
    seg: Seq<u32>,
    mem: Seq<u8>,
    w0: u32,
    w1: u32,
    out: Result<GBIResult, GfxError>,
) -> bool {
    match spec_resolve(seg, w1) {
        Err(e) => out == Err::<GBIResult, GfxError>(e) && post == pre,
        Ok(a) => {
            let params = spec_get_c0(w0, 0, 8) ^ G_MTX_PUSH;
            let inner = if a + 64 <= mem.len() {
                Ok::<(), GfxError>(())
            } else {
                Err::<(), GfxError>(GfxError::AddressOutOfBounds(a))
            };
            &&& gsp_matrix_rel(pre, post, mem, a, params, inner)
            &&& out == match inner {
                Ok(()) => Ok::<GBIResult, GfxError>(GBIResult::Continue),
                Err(e) => Err::<GBIResult, GfxError>(e),
            }
        },
    }
}

/// The one-triangle command: three staging indices (halved operand bytes);
/// a kept triangle is appended to the rasterizer's queue.
pub open spec fn triangles1_rel(
    pre_rdp: RDP,
    post_rdp: RDP,
    rsp: RSP,
    w0: u32,
    out: Result<GBIResult, GfxError>,
) -> bool {
    let i1 = spec_get_c0(w0, 16, 8) / 2;
    let i2 = spec_get_c0(w0, 8, 8) / 2;
    let i3 = spec_get_c0(w0, 0, 8) / 2;
    if i1 >= VERTEX_TABLE_SIZE as u32 || i2 >= VERTEX_TABLE_SIZE as u32 || i3
        >= VERTEX_TABLE_SIZE as u32 {
        out == Err::<GBIResult, GfxError>(GfxError::VertexIndexOutOfRange) && post_rdp == pre_rdp
    } else {
        &&& out == Ok::<GBIResult, GfxError>(GBIResult::Continue)
        &&& if spec_triangle_kept(rsp, i1 as int, i2 as int, i3 as int) {
            post_rdp.accepted_triangles@ == pre_rdp.accepted_triangles@.push(
                [
                    rsp.vertex_table@[i1 as int],
                    rsp.vertex_table@[i2 as int],
                    rsp.vertex_table@[i3 as int],
                ],
            )
        } else {
            post_rdp == pre_rdp
        }
    }
}

/// The microcode-reload command: reset the fog multiplier and offset (a
/// documented partial reset; nothing else changes).
pub open spec fn load_ucode_rel(pre: RSP, post: RSP, out: Result<GBIResult, GfxError>) -> bool {
    &&& out == Ok::<GBIResult, GfxError>(GBIResult::Continue)
    &&& post.fog_multiplier == 0
    &&& post.fog_offset == 0
    &&& post.geometry_mode == pre.geometry_mode
    &&& post.state_changed == pre.state_changed
    &&& post.modelview_index == pre.modelview_index
    &&& post.modelview_matrix == pre.modelview_matrix
    &&& post.model_projection_matrix == pre.model_projection_matrix
    &&& post.projection_matrix == pre.projection_matrix
    &&& post.vertex_table == pre.vertex_table
    &&& post.current_num_lights == pre.current_num_lights
    &&& post.current_lights == pre.current_lights
    &&& post.current_lights_coeffs == pre.current_lights_coeffs
    &&& post.current_lookat_coeffs == pre.current_lookat_coeffs
    &&& post.texture_scaling_factor == pre.texture_scaling_factor
}

impl F3DEX2 {
    /// Register this variant's opcode subset.
    pub fn setup(gbi: &mut GBI)
        requires
            old(gbi).wf(),
            forall|op: int| 0 <= op < 256 ==> old(gbi).gbi_opcode_table@[op] is None,
        ensures
            final(gbi).wf(),
            forall|op: int|
                0 <= op < 256 ==> final(gbi).gbi_opcode_table@[op] == crate::gbi::spec_f3dex2_table(
                    op,
                ),
    {
        gbi.register(F3DEX2::G_DL.opcode() as usize, crate::gbi::GBICommand::DisplayList);
        gbi.register(F3DEX2::G_GEOMETRYMODE.opcode() as usize, crate::gbi::GBICommand::GeometryMode);
        gbi.register(F3DEX2::G_VTX.opcode() as usize, crate::gbi::GBICommand::Vertex);
        gbi.register(F3DEX2::G_MTX.opcode() as usize, crate::gbi::GBICommand::Matrix);
        gbi.register(F3DEX2::G_TRI1.opcode() as usize, crate::gbi::GBICommand::Triangles1);
        gbi.register(F3DEX2::G_LOAD_UCODE.opcode() as usize, crate::gbi::GBICommand::LoadUcode);
        gbi.register(F3DEX2::G_ENDDL.opcode() as usize, crate::gbi::GBICommand::EndDisplayList);
    }

    pub fn gsp_display_list(seg: &SegmentTable, w0: u32, w1: u32) -> (out: Result<
        GBIResult,
        GfxError,
    >)
        requires
            seg.wf(),
        ensures
            displaylist_rel(seg.segments@, w0, w1, out),
    {
        let c0 = get_c0(w0, 16, 1);
        match seg.resolve(w1) {
            Err(e) => Err(e),
            Ok(address) => {
                if c0 == 0 {
                    // push the return address: recurse into the target
                    Ok(GBIResult::Recurse(address))
                } else {
                    // tail transfer: replace the current position
                    Ok(GBIResult::SetAddressWithDecrease(address))
                }
            },
        }
    }

    pub fn gsp_geometry_mode(rsp: &mut RSP, w0: u32, w1: u32) -> (out: Result<GBIResult, GfxError>)
        requires
            old(rsp).wf(),
        ensures
            final(rsp).wf(),
            geometry_mode_rel(*old(rsp), *final(rsp), w0, w1, out),
    {
        let clear_bits = get_c0(w0, 0, 24);
        rsp.geometry_mode = (rsp.geometry_mode & !clear_bits) | w1;
        rsp.state_changed = true;
        Ok(GBIResult::Continue)
    }

    pub fn gsp_vertex(rsp: &mut RSP, seg: &SegmentTable, mem: &Vec<u8>, w0: u32, w1: u32) -> (out:
        Result<GBIResult, GfxError>)
        requires
            old(rsp).wf(),
            seg.wf(),
        ensures
            final(rsp).wf(),
            vertex_rel(*old(rsp), *final(rsp), seg.segments@, mem@, w0, w1, out),
    {
        let count = get_c0(w0, 12, 8) as usize;
        let end = get_c0(w0, 1, 7);
        match seg.resolve(w1) {
            Err(e) => Err(e),
            Ok(address) => {
                if end < count as u32 {
                    return Err(GfxError::VertexIndexOutOfRange);
                }
                let dest = (end - count as u32) as usize;
                match rsp.gsp_vertex(mem, address, count, dest) {
                    Ok(()) => Ok(GBIResult::Continue),
                    Err(e) => Err(e),
                }
            },
        }
    }

    pub fn gsp_matrix(rsp: &mut RSP, seg: &SegmentTable, mem: &Vec<u8>, w0: u32, w1: u32) -> (out:
        Result<GBIResult, GfxError>)
        requires
            old(rsp).wf(),
            seg.wf(),
        ensures
            final(rsp).wf(),
            matrix_rel(*old(rsp), *final(rsp), seg.segments@, mem@, w0, w1, out),
    {
        let params = get_c0(w0, 0, 8) ^ G_MTX_PUSH;
        match seg.resolve(w1) {
            Err(e) => Err(e),
            Ok(address) => {
                match rsp.gsp_matrix(mem, address, params) {
                    Ok(()) => Ok(GBIResult::Continue),
                    Err(e) => Err(e),
                }
            },
        }
    }

    pub fn gsp_triangles1(rdp: &mut RDP, rsp: &RSP, w0: u32) -> (out: Result<GBIResult, GfxError>)
        requires
            rsp.wf(),
        ensures
            triangles1_rel(*old(rdp), *final(rdp), *rsp, w0, out),
    {
        let i1 = get_c0(w0, 16, 8) / 2;
        let i2 = get_c0(w0, 8, 8) / 2;
        let i3 = get_c0(w0, 0, 8) / 2;
        if i1 >= VERTEX_TABLE_SIZE as u32 || i2 >= VERTEX_TABLE_SIZE as u32 || i3
            >= VERTEX_TABLE_SIZE as u32 {
            return Err(GfxError::VertexIndexOutOfRange);
        }
        let kept = rsp.gsp_triangles(i1 as u8, i2 as u8, i3 as u8);
        if kept {
            let v1 = rsp.vertex_table[i1 as usize];
            let v2 = rsp.vertex_table[i2 as usize];
            let v3 = rsp.vertex_table[i3 as usize];
            rdp.accepted_triangles.push([v1, v2, v3]);
        }
        Ok(GBIResult::Continue)
    }

    pub fn gsp_load_ucode(rsp: &mut RSP) -> (out: Result<GBIResult, GfxError>)
        requires
            old(rsp).wf(),
        ensures
            final(rsp).wf(),
            load_ucode_rel(*old(rsp), *final(rsp), out),
    {
        rsp.fog_multiplier = 0;
        rsp.fog_offset = 0;
        Ok(GBIResult::Continue)
    }

    /// End of display list: halt this interpreter invocation.
    pub fn gsp_end_display_list() -> (out: Result<GBIResult, GfxError>)
        ensures
            out == Ok::<GBIResult, GfxError>(GBIResult::Return),
    {
        Ok(GBIResult::Return)
    }
}

} // verus!
