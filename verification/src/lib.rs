//! Core of a fixed-function 3D graphics coprocessor emulator: a display-list
//! interpreter over binary command records, and the geometry processor it
//! drives (matrix stack, vertex transform, lighting, fog, clip/cull).
//!
//! All arithmetic of the geometry pipeline is exact fixed-point integer
//! arithmetic in the coprocessor's s15.16 cell format.
pub mod fixed;
pub mod gbi;
pub mod image;
pub mod mem;
pub mod rcp;
pub mod rdp;
pub mod rsp;
pub mod utils;

use vstd::prelude::*;

verus! {

/// The declared failure conditions of display-list evaluation. A malformed or
/// adversarial command stream aborts the current evaluation with one of these
/// instead of faulting the host.
#[derive(Clone, Copy, Debug, PartialEq, Eq, Structural)]
pub enum GfxError {
    /// An opcode with no registered handler: upstream corruption, fatal to
    /// this evaluation.
    UnknownOpcode(u8),
    /// A segment-relative address named a segment id above 15.
    SegmentOutOfRange(u8),
    /// A command, matrix, or vertex read fell outside the host buffer.
    AddressOutOfBounds(u64),
    /// Nested display lists exceeded the configured call-depth ceiling.
    RecursionDepthExceeded,
    /// The walk exceeded the configured command budget.
    StepLimitExceeded,
    /// Lighting was enabled with no lights configured.
    NoLights,
    /// Lighting was enabled with the modelview stack at its base slot.
    MatrixStackEmpty,
    /// A triangle or vertex command named a staging slot outside the cache.
    VertexIndexOutOfRange,
}

} // verus!
