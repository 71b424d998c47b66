//! Integer arithmetic used by the widget logic: clamping, saturation and
//! division toward zero, with the spec-level functions the contracts use.

use vstd::prelude::*;

verus! {

/// Mathematical clamp of `v` into `[lo, hi]`.
pub open spec fn spec_clamp(v: int, lo: int, hi: int) -> int {
    if v < lo {
        lo
    } else if v > hi {
        hi
    } else {
        v
    }
}

/// Saturate an unbounded integer into the `i64` range.
pub open spec fn spec_sat64(v: int) -> int {
    spec_clamp(v, i64::MIN as int, i64::MAX as int)
}

/// Division that rounds toward zero (the behaviour of hardware division),
/// defined for positive divisors.
pub open spec fn spec_div_trunc(a: int, b: int) -> int {
    if a >= 0 {
        a / b
    } else {
        -((-a) / b)
    }
}

/// Clamp `v` into the inclusive range `[lo, hi]`.
pub fn clamp_i64(v: i64, lo: i64, hi: i64) -> (r: i64)
    requires
        lo <= hi,
    ensures
        r == spec_clamp(v as int, lo as int, hi as int),
{
    if v < lo {
        lo
    } else if v > hi {
        hi
    } else {
        v
    }
}

/// Saturate a wide intermediate result into the `i64` range.
pub fn sat_i64(v: i128) -> (r: i64)
    ensures
        r == spec_sat64(v as int),
{
    if v < i64::MIN as i128 {
        i64::MIN
    } else if v > i64::MAX as i128 {
        i64::MAX
    } else {
        v as i64
    }
}

/// Divide toward zero by a positive divisor, on wide intermediates.
pub fn div_trunc_i128(a: i128, b: i128) -> (r: i128)
    requires
        1 <= b,
        -0x4000_0000_0000_0000_0000_0000_0000_0000 <= a
            <= 0x4000_0000_0000_0000_0000_0000_0000_0000 - 1,
    ensures
        r == spec_div_trunc(a as int, b as int),
{
    if a >= 0 {
        let q = (a as u128) / (b as u128);
        proof {
            assert(q == (a as int) / (b as int));
        }
        q as i128
    } else {
        let m = -a;
        let q = (m as u128) / (b as u128);
        proof {
            assert(q == (m as int) / (b as int));
            vstd::arithmetic::div_mod::lemma_div_nonincreasing(m as int, b as int);
            vstd::arithmetic::div_mod::lemma_div_pos_is_pos(m as int, b as int);
        }
        -(q as i128)
    }
}

/// `base + (delta * num) / den`, the linear pointer-to-value mapping shared by
/// slider and scrollbar drags, saturated into `i64`.
pub fn linear_map_sat(base: i64, delta: i64, num: i64, den: i64) -> (r: i64)
    requires
        1 <= den,
        0 <= num <= i64::MAX,
    ensures
        r == spec_sat64(base + spec_div_trunc(delta * num, den as int)),
{
    proof {
        assert(-0x4000_0000_0000_0000_0000_0000_0000_0000 <= (delta as int) * (num as int)
            <= 0x4000_0000_0000_0000_0000_0000_0000_0000 - 1) by (nonlinear_arith)
            requires
                -0x8000_0000_0000_0000 <= delta as int <= 0x7fff_ffff_ffff_ffff,
                0 <= num as int <= 0x7fff_ffff_ffff_ffff,
        ;
    }
    let prod: i128 = (delta as i128) * (num as i128);
    let scaled = div_trunc_i128(prod, den as i128);
    proof {
        if prod >= 0 {
            vstd::arithmetic::div_mod::lemma_div_nonincreasing(prod as int, den as int);
            vstd::arithmetic::div_mod::lemma_div_pos_is_pos(prod as int, den as int);
        } else {
            vstd::arithmetic::div_mod::lemma_div_nonincreasing(-prod as int, den as int);
            vstd::arithmetic::div_mod::lemma_div_pos_is_pos(-prod as int, den as int);
        }
    }
    sat_i64((base as i128) + scaled)
}

} // verus!
