//! Unsigned ("logical") right shifts on signed integers: the operand's bit
//! pattern is reinterpreted as unsigned before shifting, so sign bits do not
//! smear into the result.
use vstd::prelude::*;

verus! {

/// The unsigned value carrying the same 32 bits as `x`.
pub open spec fn bits_of_i32(x: i32) -> u32 {
    if x >= 0 {
        x as u32
    } else {
        (x + 0x1_0000_0000) as u32
    }
}

/// The unsigned value carrying the same 16 bits as `x`.
pub open spec fn bits_of_i16(x: i16) -> u16 {
    if x >= 0 {
        x as u16
    } else {
        (x + 0x1_0000) as u16
    }
}

/// The unsigned value carrying the same 8 bits as `x`.
pub open spec fn bits_of_i8(x: i8) -> u8 {
    if x >= 0 {
        x as u8
    } else {
        (x + 0x100) as u8
    }
}

/// Logical right shift of a 32-bit value: the bits of `x`, shifted with zero fill.
pub fn ursi32(x: i32, n: u32) -> (r: u32)
    requires
        n < 32,
    ensures
        r == bits_of_i32(x) >> n,
{
    let bits: u32 = if x >= 0 {
        x as u32
    } else {
        let low: u32 = (x - i32::MIN) as u32;
        proof {
            assert(low == x + 0x8000_0000);
            assert(low + 0x8000_0000u32 == bits_of_i32(x)) by {
                assert(bits_of_i32(x) == x + 0x1_0000_0000);
            }
        }
        low + 0x8000_0000u32
    };
    bits >> n
}

/// Logical right shift of a 16-bit value.
pub fn ursi16(x: i16, n: u16) -> (r: u16)
    requires
        n < 16,
    ensures
        r == bits_of_i16(x) >> n,
{
    let bits: u16 = if x >= 0 {
        x as u16
    } else {
        let low: u16 = (x - i16::MIN) as u16;
        proof {
            assert(low + 0x8000u16 == bits_of_i16(x)) by {
                assert(bits_of_i16(x) == x + 0x1_0000);
            }
        }
        low + 0x8000u16
    };
    bits >> n
}

/// Logical right shift of an 8-bit value.
pub fn ursi8(x: i8, n: u8) -> (r: u8)
    requires
        n < 8,
    ensures
        r == bits_of_i8(x) >> n,
{
    let bits: u8 = if x >= 0 {
        x as u8
    } else {
        let low: u8 = (x - i8::MIN) as u8;
        proof {
            assert(low + 0x80u8 == bits_of_i8(x)) by {
                assert(bits_of_i8(x) == x + 0x100);
            }
        }
        low + 0x80u8
    };
    bits >> n
}

} // verus!
