//! The opcode table: a mapping from opcode byte to a closed set of tagged
//! handler variants, built once per configured microcode variant, and the
//! dispatcher that routes each command record to its handler.
use vstd::prelude::*;

pub mod defines;
pub mod f3dex2;
pub mod f3dzex2;
pub mod utils;

use crate::gbi::f3dex2::{
    displaylist_rel, geometry_mode_rel, load_ucode_rel, matrix_rel, triangles1_rel, vertex_rel,
    F3DEX2,
};
use crate::rcp::SegmentTable;
use crate::rdp::RDP;
use crate::rsp::RSP;
use crate::GfxError;

verus! {

/// The control-flow signal a handler returns to the interpreter.
#[derive(Clone, Copy, Debug, PartialEq, Eq, Structural)]
pub enum GBIResult {
    /// no special action; the interpreter advances by one record
    Continue,
    /// retreat the program counter by one record (before the usual advance)
    Decrease,
    /// advance the program counter by one extra record
    Increase,
    /// redirect to an address pre-biased one record backward (the usual
    /// advance then lands exactly on the target)
    SetAddressWithDecrease(u64),
    /// synchronously interpret a nested display list, then resume here
    Recurse(u64),
    /// terminate this interpreter invocation
    Return,
}

/// The closed set of handlers a microcode variant can register.
#[derive(Clone, Copy, Debug, PartialEq, Eq, Structural)]
pub enum GBICommand {
    DisplayList,
    GeometryMode,
    Vertex,
    Matrix,
    Triangles1,
    LoadUcode,
    EndDisplayList,
}

/// The handler set that the F3DEX2 variant registers (and that the F3DZEX2
/// compatibility variant delegates to).
pub open spec fn spec_f3dex2_table(op: int) -> Option<GBICommand> {
    if op == 0x01 {
        Some(GBICommand::Vertex)
    } else if op == 0x05 {
        Some(GBICommand::Triangles1)
    } else if op == 0xD9 {
        Some(GBICommand::GeometryMode)
    } else if op == 0xDA {
        Some(GBICommand::Matrix)
    } else if op == 0xDD {
        Some(GBICommand::LoadUcode)
    } else if op == 0xDE {
        Some(GBICommand::DisplayList)
    } else if op == 0xDF {
        Some(GBICommand::EndDisplayList)
    } else {
        None
    }
}

/// The opcode table: one optional handler per opcode byte.
pub struct GBI {
    pub gbi_opcode_table: Vec<Option<GBICommand>>,
}

/// What dispatching one command to `cmd` does: exactly that handler's
/// contract, over the pre and post processor state and the returned signal.
pub open spec fn dispatch_rel(
    cmd: GBICommand,
    seg: Seq<u32>,
    mem: Seq<u8>,
    pre_rdp: RDP,
    pre_rsp: RSP,
    post_rdp: RDP,
    post_rsp: RSP,
    w0: u32,
    w1: u32,
    out: Result<GBIResult, GfxError>,
) -> bool {
    match cmd {
        GBICommand::DisplayList => displaylist_rel(seg, w0, w1, out) && post_rsp == pre_rsp
            && post_rdp == pre_rdp,
        GBICommand::GeometryMode => geometry_mode_rel(pre_rsp, post_rsp, w0, w1, out) && post_rdp
            == pre_rdp,
        GBICommand::Vertex => vertex_rel(pre_rsp, post_rsp, seg, mem, w0, w1, out) && post_rdp
            == pre_rdp,
        GBICommand::Matrix => matrix_rel(pre_rsp, post_rsp, seg, mem, w0, w1, out) && post_rdp
            == pre_rdp,
        GBICommand::Triangles1 => triangles1_rel(pre_rdp, post_rdp, pre_rsp, w0, out) && post_rsp
            == pre_rsp,
        GBICommand::LoadUcode => load_ucode_rel(pre_rsp, post_rsp, out) && post_rdp == pre_rdp,
        GBICommand::EndDisplayList => out == Ok::<GBIResult, GfxError>(GBIResult::Return)
            && post_rsp == pre_rsp && post_rdp == pre_rdp,
    }
}

impl GBI {
    /// One optional handler slot per opcode byte.
    pub open spec fn wf(self) -> bool {
        self.gbi_opcode_table@.len() == 256
    }

    pub fn new() -> (r: GBI)
        ensures
            r.wf(),
            forall|op: int| 0 <= op < 256 ==> r.gbi_opcode_table@[op] is None,
    {
        let mut table: Vec<Option<GBICommand>> = Vec::new();
        let mut k: usize = 0;
        while k < 256
            invariant
                table@.len() == k,
                k <= 256,
                forall|op: int| 0 <= op < k ==> table@[op] is None,
            decreases 256 - k,
        {
            table.push(None);
            k += 1;
        }
        GBI { gbi_opcode_table: table }
    }

    /// Populate the table for the selected microcode variant.
    pub fn setup(&mut self)
        requires
            old(self).wf(),
            forall|op: int| 0 <= op < 256 ==> old(self).gbi_opcode_table@[op] is None,
        ensures
            final(self).wf(),
            forall|op: int|
                0 <= op < 256 ==> final(self).gbi_opcode_table@[op] == spec_f3dex2_table(op),
    {
        crate::gbi::f3dzex2::F3DZEX2::setup(self);
    }

    /// Install exactly one handler for one opcode (last write wins).
    pub fn register(&mut self, opcode: usize, cmd: GBICommand)
        requires
            old(self).wf(),
            opcode < 256,
        ensures
            final(self).wf(),
            final(self).gbi_opcode_table@ == old(self).gbi_opcode_table@.update(
                opcode as int,
                Some(cmd),
            ),
    {
        self.gbi_opcode_table[opcode] = Some(cmd);
    }

    /// Dispatch one command record: the opcode byte selects the registered
    /// handler; an opcode with no handler is a fatal unknown-opcode error.
    pub fn handle_command(
        &self,
        rdp: &mut RDP,
        rsp: &mut RSP,
        seg: &SegmentTable,
        mem: &Vec<u8>,
        w0: u32,
        w1: u32,
    ) -> (out: Result<GBIResult, GfxError>)
        requires
            self.wf(),
            seg.wf(),
            old(rsp).wf(),
        ensures
            final(rsp).wf(),
            match self.gbi_opcode_table@[(w0 >> 24) as int] {
                None => out == Err::<GBIResult, GfxError>(
                    GfxError::UnknownOpcode((w0 >> 24) as u8),
                ) && *final(rsp) == *old(rsp) && *final(rdp) == *old(rdp),
                Some(cmd) => dispatch_rel(
                    cmd,
                    seg.segments@,
                    mem@,
                    *old(rdp),
                    *old(rsp),
                    *final(rdp),
                    *final(rsp),
                    w0,
                    w1,
                    out,
                ),
            },
    {
        let opcode = w0 >> 24;
        proof {
            assert(w0 >> 24 < 256) by (bit_vector);
        }
        match self.gbi_opcode_table[opcode as usize] {
            None => Err(GfxError::UnknownOpcode(opcode as u8)),
            Some(cmd) => match cmd {
                GBICommand::DisplayList => F3DEX2::gsp_display_list(seg, w0, w1),
                GBICommand::GeometryMode => F3DEX2::gsp_geometry_mode(rsp, w0, w1),
                GBICommand::Vertex => F3DEX2::gsp_vertex(rsp, seg, mem, w0, w1),
                GBICommand::Matrix => F3DEX2::gsp_matrix(rsp, seg, mem, w0, w1),
                GBICommand::Triangles1 => F3DEX2::gsp_triangles1(rdp, rsp, w0),
                GBICommand::LoadUcode => F3DEX2::gsp_load_ucode(rsp),
                GBICommand::EndDisplayList => F3DEX2::gsp_end_display_list(),
            },
        }
    }
}

} // verus!
