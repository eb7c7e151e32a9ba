//! The F3DZEX2 compatibility variant: pure delegation to the F3DEX2 handler
//! set, with no independent behavior.
use vstd::prelude::*;

use crate::gbi::f3dex2::F3DEX2;
use crate::gbi::GBI;

verus! {

#[derive(Clone, Copy, Debug)]
pub enum F3DZEX2 {
    Base,
}

impl F3DZEX2 {
    /// Register exactly the base variant's opcode subset.
    pub fn setup(gbi: &mut GBI)
        requires
            old(gbi).wf(),
            forall|op: int| 0 <= op < 256 ==> old(gbi).gbi_opcode_table@[op] is None,
        ensures
            final(gbi).wf(),
            forall|op: int|
                0 <= op < 256 ==> final(gbi).gbi_opcode_table@[op] == crate::gbi::spec_f3dex2_table(
                    op,
                ),
    {
        F3DEX2::setup(gbi);
    }
}

} // verus!
