//! Operand-field extraction from command words.
use vstd::prelude::*;

verus! {

/// The `width`-bit field of `w0` starting at bit `pos`.
pub open spec fn spec_get_c0(w0: u32, pos: u32, width: u32) -> u32
    recommends
        pos < 32,
        0 < width < 32,
{
    (w0 >> pos) & (((1u32 << width) - 1) as u32)
}

/// Extract an operand field from the first command word.
pub fn get_c0(w0: u32, pos: u32, width: u32) -> (r: u32)
    requires
        pos < 32,
        0 < width < 32,
    ensures
        r == spec_get_c0(w0, pos, width),
{
    proof {
        assert(width < 32 ==> (1u32 << width) >= 1) by (bit_vector);
    }
    (w0 >> pos) & ((1u32 << width) - 1)
}

} // verus!
