//! One rendering session: the segment-address resolver and the display-list
//! interpreter that walks a command stream, dispatches each record, and
//! applies the resulting control-flow signal.
use vstd::prelude::*;

use crate::gbi::{dispatch_rel, GBICommand, GBIResult, GBI};
use crate::mem::spec_u32_be;
use crate::rdp::RDP;
use crate::rsp::RSP;
use crate::GfxError;

verus! {

/// Logical address namespaces: a command operand's address may be
/// segment-relative and require base translation.
pub const NUM_SEGMENTS: usize = 16;

/// The 16 segment base addresses of one session, initially all zero
/// ("unmapped"). Mutated only by collaborators outside this core; read by
/// the resolver during address translation.
pub struct SegmentTable {
    pub segments: Vec<u32>,
}

/// Segment-relative address translation. An even address is already
/// absolute. An odd address names a segment in its top byte: with a nonzero
/// base the translation is `base + (address & 0x00FFFFFE)`; an unmapped
/// (zero) base leaves the address unchanged; a segment id above 15 is a
/// declared error.
pub open spec fn spec_resolve(seg: Seq<u32>, address: u32) -> Result<u64, GfxError>
    recommends
        seg.len() == NUM_SEGMENTS,
{
    if address & 1 == 0 {
        Ok(address as u64)
    } else {
        let id = address >> 24;
        if id >= NUM_SEGMENTS as u32 {
            Err(GfxError::SegmentOutOfRange(id as u8))
        } else if seg[id as int] == 0 {
            Ok(address as u64)
        } else {
            Ok((seg[id as int] + (address & 0x00FFFFFE)) as u64)
        }
    }
}

impl SegmentTable {
    pub open spec fn wf(self) -> bool {
        self.segments@.len() == NUM_SEGMENTS
    }

    pub fn new() -> (r: SegmentTable)
        ensures
            r.wf(),
            forall|i: int| 0 <= i < NUM_SEGMENTS ==> r.segments@[i] == 0,
    {
        let mut segments: Vec<u32> = Vec::new();
        let mut k: usize = 0;
        while k < NUM_SEGMENTS
            invariant
                segments@.len() == k,
                k <= NUM_SEGMENTS,
                forall|i: int| 0 <= i < k ==> segments@[i] == 0,
            decreases NUM_SEGMENTS - k,
        {
            segments.push(0);
            k += 1;
        }
        SegmentTable { segments }
    }

    /// Map one segment to a base address (zero unmaps it).
    pub fn set_segment(&mut self, id: usize, base: u32)
        requires
            old(self).wf(),
            id < NUM_SEGMENTS,
        ensures
            final(self).wf(),
            final(self).segments@ == old(self).segments@.update(id as int, base),
    {
        self.segments[id] = base;
    }

    /// Translate a possibly segment-relative address.
    pub fn resolve(&self, address: u32) -> (r: Result<u64, GfxError>)
        requires
            self.wf(),
        ensures
            r == spec_resolve(self.segments@, address),
    {
        if address & 1 == 0 {
            Ok(address as u64)
        } else {
            let id = address >> 24;
            proof {
                assert(address >> 24 < 256) by (bit_vector);
            }
            if id >= NUM_SEGMENTS as u32 {
                Err(GfxError::SegmentOutOfRange(id as u8))
            } else {
                let base = self.segments[id as usize];
                if base == 0 {
                    Ok(address as u64)
                } else {
                    Ok(base as u64 + (address & 0x00FFFFFE) as u64)
                }
            }
        }
    }
}

/// The three observable cases of address translation.
pub proof fn lemma_resolve_cases(seg: Seq<u32>, address: u32)
    requires
        seg.len() == NUM_SEGMENTS,
    ensures
        address & 1 == 0 ==> spec_resolve(seg, address) == Ok::<u64, GfxError>(address as u64),
        address & 1 != 0 && (address >> 24) < 16 && seg[(address >> 24) as int] != 0
            ==> spec_resolve(seg, address) == Ok::<u64, GfxError>(
            (seg[(address >> 24) as int] + (address & 0x00FFFFFE)) as u64,
        ),
        address & 1 != 0 && (address >> 24) < 16 && seg[(address >> 24) as int] == 0
            ==> spec_resolve(seg, address) == Ok::<u64, GfxError>(address as u64),
{
}

/// One rendering session: the geometry processor, the rasterizer boundary,
/// the opcode table, the session's segment table, the trace of visited
/// command addresses, and the explicit ceilings on nested calls and on the
/// total command budget of one evaluation.
pub struct RCP {
    pub rdp: RDP,
    pub rsp: RSP,
    pub gbi: GBI,
    pub segments: SegmentTable,
    /// every program-counter value visited, in visit order
    pub trace: Vec<u64>,
    /// ceiling on nested display-list calls
    pub max_depth: u32,
    /// ceiling on commands interpreted per top-level evaluation
    pub max_steps: u64,
}

/// A sequence extends another when the other is its prefix.
pub proof fn lemma_prefix_trans(a: Seq<u64>, b: Seq<u64>, c: Seq<u64>)
    requires
        a.is_prefix_of(b),
        b.is_prefix_of(c),
    ensures
        a.is_prefix_of(c),
{
    assert(c.subrange(0, a.len() as int) =~= a);
}



/// Trigger marker naming one nested evaluation's outcome inside
/// [`interp_apply`]'s existential.
pub open spec fn nested_outcome(rdp_n: RDP, rsp_n: RSP, trace_n: Seq<u64>, rest: u64) -> bool {
    true
}

/// The interpreter's whole behavior, one command per unfolding: read the
/// record at `pc` (appending `pc` to the trace), dispatch it, relate the
/// intermediate state by the handler's own contract, and continue as the
/// control-flow signal directs, always advancing by one record (jump targets
/// are pre-biased one record backward, so the two adjustments cancel). `r`
/// carries the remaining command budget on normal termination.
pub open spec fn interp_rel(
    table: Seq<Option<GBICommand>>,
    seg: Seq<u32>,
    mem: Seq<u8>,
    rdp: RDP,
    rsp: RSP,
    trace: Seq<u64>,
    pc: u64,
    depth: u32,
    fuel: u64,
    rdp2: RDP,
    rsp2: RSP,
    trace2: Seq<u64>,
    r: Result<u64, GfxError>,
) -> bool
    decreases fuel, 1int,
{
    if fuel == 0 {
        r == Err::<u64, GfxError>(GfxError::StepLimitExceeded) && rdp2 == rdp && rsp2 == rsp
            && trace2 == trace
    } else if pc + 8 > mem.len() {
        r == Err::<u64, GfxError>(GfxError::AddressOutOfBounds(pc)) && rdp2 == rdp && rsp2 == rsp
            && trace2 == trace
    } else {
        let trace1 = trace.push(pc);
        let w0 = spec_u32_be(mem, pc as int);
        let w1 = spec_u32_be(mem, pc + 4);
        match table[(w0 >> 24) as int] {
            None => r == Err::<u64, GfxError>(GfxError::UnknownOpcode((w0 >> 24) as u8)) && rdp2
                == rdp && rsp2 == rsp && trace2 == trace1,
            Some(cmd) => exists|rdp_m: RDP, rsp_m: RSP, out: Result<GBIResult, GfxError>|
                #[trigger] dispatch_rel(cmd, seg, mem, rdp, rsp, rdp_m, rsp_m, w0, w1, out)
                    && interp_apply(
                    table,
                    seg,
                    mem,
                    rdp_m,
                    rsp_m,
                    trace1,
                    pc,
                    depth,
                    fuel,
                    out,
                    rdp2,
                    rsp2,
                    trace2,
                    r,
                ),
        }
    }
}

/// Apply a dispatch outcome at `pc`: an error aborts the evaluation; a signal
/// moves the program counter (with the unconditional one-record advance
/// folded in) or calls into a nested stream to completion before resuming.
pub open spec fn interp_apply(
    table: Seq<Option<GBICommand>>,
    seg: Seq<u32>,
    mem: Seq<u8>,
    rdp_m: RDP,
    rsp_m: RSP,
    trace1: Seq<u64>,
    pc: u64,
    depth: u32,
    fuel: u64,
    out: Result<GBIResult, GfxError>,
    rdp2: RDP,
    rsp2: RSP,
    trace2: Seq<u64>,
    r: Result<u64, GfxError>,
) -> bool
    decreases fuel, 0int,
{
    if fuel == 0 {
        false
    } else {
        match out {
        Err(e) => r == Err::<u64, GfxError>(e) && rdp2 == rdp_m && rsp2 == rsp_m && trace2
            == trace1,
        Ok(sig) => match sig {
            GBIResult::Continue => interp_rel(
                table,
                seg,
                mem,
                rdp_m,
                rsp_m,
                trace1,
                (pc + 8) as u64,
                depth,
                (fuel - 1) as u64,
                rdp2,
                rsp2,
                trace2,
                r,
            ),
            GBIResult::Increase => if pc >= u64::MAX - 16 {
                r == Err::<u64, GfxError>(GfxError::AddressOutOfBounds(pc)) && rdp2 == rdp_m && rsp2
                    == rsp_m && trace2 == trace1
            } else {
                interp_rel(
                    table,
                    seg,
                    mem,
                    rdp_m,
                    rsp_m,
                    trace1,
                    (pc + 16) as u64,
                    depth,
                    (fuel - 1) as u64,
                    rdp2,
                    rsp2,
                    trace2,
                    r,
                )
            },
            GBIResult::Decrease => interp_rel(
                table,
                seg,
                mem,
                rdp_m,
                rsp_m,
                trace1,
                pc,
                depth,
                (fuel - 1) as u64,
                rdp2,
                rsp2,
                trace2,
                r,
            ),
            GBIResult::SetAddressWithDecrease(address) => interp_rel(
                table,
                seg,
                mem,
                rdp_m,
                rsp_m,
                trace1,
                address,
                depth,
                (fuel - 1) as u64,
                rdp2,
                rsp2,
                trace2,
                r,
            ),
            GBIResult::Recurse(address) => if depth == 0 {
                r == Err::<u64, GfxError>(GfxError::RecursionDepthExceeded) && rdp2 == rdp_m && rsp2
                    == rsp_m && trace2 == trace1
            } else {
                (r is Err && interp_rel(
                    table,
                    seg,
                    mem,
                    rdp_m,
                    rsp_m,
                    trace1,
                    address,
                    (depth - 1) as u32,
                    (fuel - 1) as u64,
                    rdp2,
                    rsp2,
                    trace2,
                    Err(r->Err_0),
                )) || (exists|
                    rdp_n: RDP,
                    rsp_n: RSP,
                    trace_n: Seq<u64>,
                    rest: u64,
                |
                    (#[trigger] nested_outcome(rdp_n, rsp_n, trace_n, rest) && interp_rel(
                        table,
                        seg,
                        mem,
                        rdp_m,
                        rsp_m,
                        trace1,
                        address,
                        (depth - 1) as u32,
                        (fuel - 1) as u64,
                        rdp_n,
                        rsp_n,
                        trace_n,
                        Ok(rest),
                    ) && rest < fuel && (if rest < fuel {
                        interp_rel(
                            table,
                            seg,
                            mem,
                            rdp_n,
                            rsp_n,
                            trace_n,
                            (pc + 8) as u64,
                            depth,
                            rest,
                            rdp2,
                            rsp2,
                            trace2,
                            r,
                        )
                    } else {
                        false
                    })))
            },
            GBIResult::Return => r == Ok::<u64, GfxError>((fuel - 1) as u64) && rdp2 == rdp_m
                && rsp2 == rsp_m && trace2 == trace1,
        },
        }
    }
}

impl RCP {
    pub open spec fn wf(self) -> bool {
        &&& self.rsp.wf()
        &&& self.gbi.wf()
        &&& self.segments.wf()
    }

    pub fn new() -> (r: RCP)
        ensures
            r.wf(),
            r.trace@.len() == 0,
            r.rdp.accepted_triangles@.len() == 0,
            forall|op: int| 0 <= op < 256 ==> r.gbi.gbi_opcode_table@[op] is None,
            forall|i: int| 0 <= i < NUM_SEGMENTS ==> r.segments.segments@[i] == 0,
    {
        RCP {
            rdp: RDP::new(),
            rsp: RSP::new(),
            gbi: GBI::new(),
            segments: SegmentTable::new(),
            trace: Vec::new(),
            max_depth: 32,
            max_steps: 0x10_0000,
        }
    }

    /// Populate the opcode table; called exactly once before any dispatch.
    pub fn initialize(&mut self)
        requires
            old(self).wf(),
            forall|op: int| 0 <= op < 256 ==> old(self).gbi.gbi_opcode_table@[op] is None,
        ensures
            final(self).wf(),
            forall|op: int|
                0 <= op < 256 ==> final(self).gbi.gbi_opcode_table@[op]
                    == crate::gbi::spec_f3dex2_table(op),
            final(self).rsp == old(self).rsp,
            final(self).segments == old(self).segments,
    {
        self.gbi.setup();
    }

    /// Translate a possibly segment-relative address through this session's
    /// segment table.
    pub fn segmented_address(&self, address: u32) -> (r: Result<u64, GfxError>)
        requires
            self.segments.wf(),
        ensures
            r == spec_resolve(self.segments.segments@, address),
    {
        self.segments.resolve(address)
    }

    /// Process a display list from `start` until its end-of-list command.
    ///
    /// Every command address visited is appended to the trace. Evaluation
    /// fails explicitly (never faults) on an unknown opcode, an out-of-range
    /// read, a call deeper than `max_depth`, or more than `max_steps`
    /// commands.
    pub fn process_displaylist(&mut self, mem: &Vec<u8>, start: u64) -> (r: Result<(), GfxError>)
        requires
            old(self).wf(),
        ensures
            final(self).wf(),
            final(self).gbi == old(self).gbi,
            final(self).segments == old(self).segments,
            final(self).max_depth == old(self).max_depth,
            final(self).max_steps == old(self).max_steps,
            old(self).trace@.is_prefix_of(final(self).trace@),
            r matches Err(e) ==> interp_rel(
                old(self).gbi.gbi_opcode_table@,
                old(self).segments.segments@,
                mem@,
                old(self).rdp,
                old(self).rsp,
                old(self).trace@,
                start,
                old(self).max_depth,
                old(self).max_steps,
                final(self).rdp,
                final(self).rsp,
                final(self).trace@,
                Err(e),
            ),
            r is Ok ==> exists|f: u64|
                interp_rel(
                    old(self).gbi.gbi_opcode_table@,
                    old(self).segments.segments@,
                    mem@,
                    old(self).rdp,
                    old(self).rsp,
                    old(self).trace@,
                    start,
                    old(self).max_depth,
                    old(self).max_steps,
                    final(self).rdp,
                    final(self).rsp,
                    final(self).trace@,
                    Ok(f),
                ),
    {
        let depth = self.max_depth;
        let fuel = self.max_steps;
        match self.run(mem, start, depth, fuel) {
            Ok(f) => {
                proof {
                    assert(interp_rel(
                        old(self).gbi.gbi_opcode_table@,
                        old(self).segments.segments@,
                        mem@,
                        old(self).rdp,
                        old(self).rsp,
                        old(self).trace@,
                        start,
                        old(self).max_depth,
                        old(self).max_steps,
                        self.rdp,
                        self.rsp,
                        self.trace@,
                        Ok(f),
                    ));
                }
                Ok(())
            },
            Err(e) => Err(e),
        }
    }

    /// One interpreter frame: read the record at `pc`, dispatch it, apply
    /// the control-flow signal, advance by one record, repeat. Returns the
    /// remaining command budget.
    fn run(&mut self, mem: &Vec<u8>, pc: u64, depth: u32, fuel: u64) -> (r: Result<u64, GfxError>)
        requires
            old(self).wf(),
        ensures
            final(self).wf(),
            final(self).gbi == old(self).gbi,
            final(self).segments == old(self).segments,
            final(self).max_depth == old(self).max_depth,
            final(self).max_steps == old(self).max_steps,
            old(self).trace@.is_prefix_of(final(self).trace@),
            r matches Ok(f) ==> f < fuel,
            interp_rel(
                old(self).gbi.gbi_opcode_table@,
                old(self).segments.segments@,
                mem@,
                old(self).rdp,
                old(self).rsp,
                old(self).trace@,
                pc,
                depth,
                fuel,
                final(self).rdp,
                final(self).rsp,
                final(self).trace@,
                r,
            ),
        decreases fuel,
    {
        if fuel == 0 {
            return Err(GfxError::StepLimitExceeded);
        }
        let len = mem.len();
        if (pc as u128) + 8 > (len as u128) {
            return Err(GfxError::AddressOutOfBounds(pc));
        }
        self.trace.push(pc);
        let w0 = crate::mem::read_u32_be(mem, pc as usize);
        let w1 = crate::mem::read_u32_be(mem, pc as usize + 4);
        let ghost table = self.gbi.gbi_opcode_table@;
        let ghost seg = self.segments.segments@;
        let ghost trace_here = self.trace@;
        let res = self.gbi.handle_command(
            &mut self.rdp,
            &mut self.rsp,
            &self.segments,
            mem,
            w0,
            w1,
        );
        let ghost out_g = res;
        let ghost rdp_m = self.rdp;
        let ghost rsp_m = self.rsp;
        let signal = match res {
            Ok(signal) => signal,
            Err(e) => {
                proof {
                    if table[(w0 >> 24) as int] is Some {
                        let cmd = table[(w0 >> 24) as int]->0;
                        assert(dispatch_rel(
                            cmd,
                            seg,
                            mem@,
                            old(self).rdp,
                            old(self).rsp,
                            rdp_m,
                            rsp_m,
                            w0,
                            w1,
                            out_g,
                        ) && interp_apply(
                            table,
                            seg,
                            mem@,
                            rdp_m,
                            rsp_m,
                            trace_here,
                            pc,
                            depth,
                            fuel,
                            out_g,
                            self.rdp,
                            self.rsp,
                            self.trace@,
                            Err(e),
                        ));
                    }
                    lemma_prefix_trans(
                        old(self).trace@,
                        old(self).trace@.push(pc),
                        self.trace@,
                    );
                }
                return Err(e);
            },
        };
        let r: Result<u64, GfxError> = match signal {
            GBIResult::Continue => self.run(mem, pc + 8, depth, fuel - 1),
            GBIResult::Increase => {
                // skip one extra record
                if pc >= u64::MAX - 16 {
                    Err(GfxError::AddressOutOfBounds(pc))
                } else {
                    self.run(mem, pc + 16, depth, fuel - 1)
                }
            },
            GBIResult::Decrease => self.run(mem, pc, depth, fuel - 1),
            GBIResult::SetAddressWithDecrease(address) => {
                // the target is pre-biased one record backward; the
                // unconditional advance cancels the bias exactly
                self.run(mem, address, depth, fuel - 1)
            },
            GBIResult::Recurse(address) => {
                if depth == 0 {
                    Err(GfxError::RecursionDepthExceeded)
                } else {
                    let ghost trace_mid = self.trace@;
                    match self.run(mem, address, depth - 1, fuel - 1) {
                        Err(e) => {
                            proof {
                                assert(interp_rel(
                                    table,
                                    seg,
                                    mem@,
                                    rdp_m,
                                    rsp_m,
                                    trace_here,
                                    address,
                                    (depth - 1) as u32,
                                    (fuel - 1) as u64,
                                    self.rdp,
                                    self.rsp,
                                    self.trace@,
                                    Err(e),
                                ));
                                assert(interp_apply(table, seg, mem@, rdp_m, rsp_m, trace_here,
                                    pc, depth, fuel, out_g, self.rdp, self.rsp, self.trace@,
                                    Err(e)));
                            }
                            Err(e)
                        },
                        Ok(rest) => {
                            proof {
                                lemma_prefix_trans(trace_here, trace_mid, self.trace@);
                            }
                            let ghost rdp_n = self.rdp;
                            let ghost rsp_n = self.rsp;
                            let ghost trace_n = self.trace@;
                            let res2 = self.run(mem, pc + 8, depth, rest);
                            proof {
                                lemma_prefix_trans(trace_here, trace_n, self.trace@);
                                assert(nested_outcome(rdp_n, rsp_n, trace_n, rest));
                                assert(interp_rel(
                                    table,
                                    seg,
                                    mem@,
                                    rdp_m,
                                    rsp_m,
                                    trace_here,
                                    address,
                                    (depth - 1) as u32,
                                    (fuel - 1) as u64,
                                    rdp_n,
                                    rsp_n,
                                    trace_n,
                                    Ok(rest),
                                ) && rest < fuel && interp_rel(
                                    table,
                                    seg,
                                    mem@,
                                    rdp_n,
                                    rsp_n,
                                    trace_n,
                                    (pc + 8) as u64,
                                    depth,
                                    rest,
                                    self.rdp,
                                    self.rsp,
                                    self.trace@,
                                    res2,
                                ));
                                assert(interp_apply(table, seg, mem@, rdp_m, rsp_m, trace_here,
                                    pc, depth, fuel, out_g, self.rdp, self.rsp, self.trace@, res2));
                            }
                            res2
                        },
                    }
                }
            },
            GBIResult::Return => Ok(fuel - 1),
        };
        proof {
            let cmd = table[(w0 >> 24) as int]->0;
            assert(table[(w0 >> 24) as int] is Some);
            assert(dispatch_rel(
                cmd,
                seg,
                mem@,
                old(self).rdp,
                old(self).rsp,
                rdp_m,
                rsp_m,
                w0,
                w1,
                out_g,
            ));
            assert(interp_apply(
                table,
                seg,
                mem@,
                rdp_m,
                rsp_m,
                trace_here,
                pc,
                depth,
                fuel,
                out_g,
                self.rdp,
                self.rsp,
                self.trace@,
                r,
            ));
            assert(trace_here.is_prefix_of(self.trace@));
            lemma_prefix_trans(old(self).trace@, trace_here, self.trace@);
        }
        r
    }
}

} // verus!
