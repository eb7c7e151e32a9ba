//! Exact fixed-point arithmetic for the geometry pipeline.
//!
//! Matrix cells are 32-bit values in the coprocessor's s15.16 format: the
//! represented real number is `cell / 65536`. All pipeline arithmetic is done
//! exactly on the integer numerators (widened as needed), so every comparison
//! and every stored result is a pure function of the input bits.
use vstd::prelude::*;

verus! {

/// The signed 32-bit value carrying the given 32 bits.
pub open spec fn spec_i32_of_bits(bits: u32) -> int {
    if bits < 0x8000_0000 {
        bits as int
    } else {
        bits - 0x1_0000_0000
    }
}

/// Reinterpret 32 bits as a signed cell.
pub fn i32_of_bits(bits: u32) -> (r: i32)
    ensures
        r as int == spec_i32_of_bits(bits),
{
    if bits >= 0x8000_0000 {
        let low: i32 = (bits - 0x8000_0000) as i32;
        low + i32::MIN
    } else {
        bits as i32
    }
}

/// The signed 16-bit value carrying the given 16 bits.
pub open spec fn spec_i16_of_bits(bits: u16) -> int {
    if bits < 0x8000 {
        bits as int
    } else {
        bits - 0x1_0000
    }
}

/// Reinterpret 16 bits as a signed value.
pub fn i16_of_bits(bits: u16) -> (r: i16)
    ensures
        r as int == spec_i16_of_bits(bits),
{
    if bits >= 0x8000 {
        let low: i16 = (bits - 0x8000) as i16;
        low + i16::MIN
    } else {
        bits as i16
    }
}

/// Division truncated toward zero (the rounding a hardware divide and a
/// float-to-integer conversion both perform), for a positive divisor.
pub open spec fn div_trunc(a: int, b: int) -> int
    recommends
        b > 0,
{
    if a >= 0 {
        a / b
    } else {
        -((-a) / b)
    }
}

/// Truncating division on wide integers.
pub fn div_trunc_i128(a: i128, b: i128) -> (r: i128)
    requires
        b > 0,
        a > i128::MIN,
    ensures
        r == div_trunc(a as int, b as int),
        a >= 0 ==> 0 <= r <= a,
        a < 0 ==> a <= r <= 0,
{
    if a >= 0 {
        let q: u128 = (a as u128) / (b as u128);
        proof {
            assert((a as u128) / (b as u128) <= a as u128) by (nonlinear_arith)
                requires
                    b as u128 >= 1,
            ;
        }
        q as i128
    } else {
        let neg: u128 = (-a) as u128;
        let q: u128 = neg / (b as u128);
        proof {
            assert(neg / (b as u128) <= neg) by (nonlinear_arith)
                requires
                    b as u128 >= 1,
            ;
        }
        -(q as i128)
    }
}

/// |a * b| <= |bound_a * bound_b| when the factors are bounded.
pub proof fn lemma_abs_mul_le(a: int, b: int, am: int, bm: int)
    requires
        -am <= a <= am,
        -bm <= b <= bm,
        0 <= am,
        0 <= bm,
    ensures
        -(am * bm) <= a * b <= am * bm,
{
    assert(-(am * bm) <= a * b <= am * bm) by (nonlinear_arith)
        requires
            -am <= a <= am,
            -bm <= b <= bm,
            0 <= am,
            0 <= bm,
    ;
}


/// A truncating quotient is bounded by any bound on the dividend in units of
/// the divisor.
pub proof fn lemma_div_trunc_bound(a: int, b: int, k: int)
    requires
        b >= 1,
        k >= 0,
        -(k * b) <= a <= k * b,
    ensures
        -k <= div_trunc(a, b) <= k,
{
    if a >= 0 {
        vstd::arithmetic::div_mod::lemma_div_is_ordered(a, k * b, b);
        vstd::arithmetic::div_mod::lemma_div_by_multiple(k, b);
        vstd::arithmetic::div_mod::lemma_div_pos_is_pos(a, b);
    } else {
        vstd::arithmetic::div_mod::lemma_div_is_ordered(-a, k * b, b);
        vstd::arithmetic::div_mod::lemma_div_by_multiple(k, b);
        vstd::arithmetic::div_mod::lemma_div_pos_is_pos(-a, b);
    }
}

/// The floor square root dominates the components: any `v` with
/// `v * v <= n` satisfies `|v| <= sqrt_floor(n)`.
pub proof fn lemma_sqrt_floor_dominates(n: nat, v: int)
    requires
        v * v <= n,
    ensures
        -(sqrt_floor(n) as int) <= v <= sqrt_floor(n) as int,
{
    lemma_sqrt_floor_bounds(n);
    let s = sqrt_floor(n) as int;
    assert(-s <= v <= s) by (nonlinear_arith)
        requires
            v * v <= n,
            n < (s + 1) * (s + 1),
            s >= 0,
    ;
}

/// The floor of the square root.
pub open spec fn sqrt_floor(n: nat) -> nat
    decreases n,
{
    if n == 0 {
        0
    } else {
        let r = sqrt_floor((n - 1) as nat);
        if (r + 1) * (r + 1) <= n {
            r + 1
        } else {
            r
        }
    }
}

pub proof fn lemma_sqrt_floor_bounds(n: nat)
    ensures
        sqrt_floor(n) * sqrt_floor(n) <= n,
        n < (sqrt_floor(n) + 1) * (sqrt_floor(n) + 1),
        sqrt_floor(n) <= n,
    decreases n,
{
    if n > 0 {
        lemma_sqrt_floor_bounds((n - 1) as nat);
        let r = sqrt_floor((n - 1) as nat);
        assert(sqrt_floor(n) == if (r + 1) * (r + 1) <= n {
            (r + 1) as nat
        } else {
            r
        });
        if (r + 1) * (r + 1) <= n {
            assert(n < (r + 2) * (r + 2)) by (nonlinear_arith)
                requires
                    n - 1 < (r + 1) * (r + 1),
            ;
            assert(r + 1 <= n) by (nonlinear_arith)
                requires
                    (r + 1) * (r + 1) <= n,
            ;
        }
    } else {
        assert(sqrt_floor(0) == 0);
        assert(0nat * 0nat == 0 && (0nat + 1) * (0nat + 1) == 1) by (nonlinear_arith);
    }
}

/// Any value meeting the floor-square-root bounds is the floor square root.
pub proof fn lemma_sqrt_floor_unique(n: nat, r: nat)
    requires
        r * r <= n,
        n < (r + 1) * (r + 1),
    ensures
        r == sqrt_floor(n),
{
    lemma_sqrt_floor_bounds(n);
    let s = sqrt_floor(n);
    assert(r == s) by (nonlinear_arith)
        requires
            r * r <= n,
            n < (r + 1) * (r + 1),
            s * s <= n,
            n < (s + 1) * (s + 1),
    ;
}

/// Floor square root of a wide unsigned value, by bisection.
pub fn isqrt(n: u128) -> (r: u128)
    ensures
        r == sqrt_floor(n as nat),
        r < 0x1_0000_0000_0000_0000,
{
    if n == 0 {
        proof {
            assert(0nat * 0nat == 0 && (0nat + 1) * (0nat + 1) == 1) by (nonlinear_arith);
            lemma_sqrt_floor_unique(0, 0);
        }
        return 0;
    }
    let mut lo: u128 = 0;
    let mut hi: u128 = 0x1_0000_0000_0000_0000;
    proof {
        assert((hi as int) * (hi as int) > n) by (nonlinear_arith)
            requires
                hi == 0x1_0000_0000_0000_0000u128,
                n <= u128::MAX,
        ;
    }
    while hi - lo > 1
        invariant
            lo < hi <= 0x1_0000_0000_0000_0000,
            (lo as int) * (lo as int) <= n as int,
            (hi as int) * (hi as int) > n as int,
        decreases hi - lo,
    {
        let mid: u128 = lo + (hi - lo) / 2;
        assert(lo < mid < hi);
        proof {
            assert((mid as int) * (mid as int) < 0x1_0000_0000_0000_0000 * 0x1_0000_0000_0000_0000)
                by (nonlinear_arith)
                requires
                    0 <= mid < 0x1_0000_0000_0000_0000u128,
            ;
        }
        let sq: u128 = mid * mid;
        if sq <= n {
            lo = mid;
        } else {
            hi = mid;
        }
    }
    proof {
        lemma_sqrt_floor_unique(n as nat, lo as nat);
    }
    lo
}

} // verus!
