//! Bounds-checked big-endian reads from the host-owned memory buffer.
//!
//! The coprocessor stores all of its words big-endian. Every read is over an
//! explicit byte buffer and an explicit offset; nothing here can fault.
use vstd::prelude::*;

use crate::fixed::spec_i16_of_bits;

verus! {

/// The big-endian 16-bit word at `a`.
pub open spec fn spec_u16_be(mem: Seq<u8>, a: int) -> u16
    recommends
        0 <= a,
        a + 2 <= mem.len(),
{
    (mem[a] * 0x100 + mem[a + 1]) as u16
}

/// The big-endian 32-bit word at `a`.
pub open spec fn spec_u32_be(mem: Seq<u8>, a: int) -> u32
    recommends
        0 <= a,
        a + 4 <= mem.len(),
{
    (mem[a] * 0x100_0000 + mem[a + 1] * 0x1_0000 + mem[a + 2] * 0x100 + mem[a + 3]) as u32
}

/// The big-endian signed 16-bit value at `a`.
pub open spec fn spec_i16_be(mem: Seq<u8>, a: int) -> int
    recommends
        0 <= a,
        a + 2 <= mem.len(),
{
    spec_i16_of_bits(spec_u16_be(mem, a))
}

pub fn read_u16_be(mem: &Vec<u8>, a: usize) -> (r: u16)
    requires
        a + 2 <= mem.len(),
    ensures
        r == spec_u16_be(mem@, a as int),
{
    (mem[a] as u16) * 0x100 + (mem[a + 1] as u16)
}

pub fn read_u32_be(mem: &Vec<u8>, a: usize) -> (r: u32)
    requires
        a + 4 <= mem.len(),
    ensures
        r == spec_u32_be(mem@, a as int),
{
    (mem[a] as u32) * 0x100_0000 + (mem[a + 1] as u32) * 0x1_0000 + (mem[a + 2] as u32) * 0x100
        + (mem[a + 3] as u32)
}

pub fn read_i16_be(mem: &Vec<u8>, a: usize) -> (r: i16)
    requires
        a + 2 <= mem.len(),
    ensures
        r as int == spec_i16_be(mem@, a as int),
{
    crate::fixed::i16_of_bits(read_u16_be(mem, a))
}

} // verus!
