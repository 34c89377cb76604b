//! Rounding right shift, the primitive used wherever a fixed-point value is
//! rescaled.
use vstd::arithmetic::power2::pow2;
use vstd::bits::{lemma_u64_pow2_no_overflow, lemma_u64_shl_is_mul};
use vstd::prelude::*;

verus! {

/// `x / 2^shift`, rounded to the nearest integer, ties away from zero.
pub open spec fn shift_round_spec(x: int, shift: nat) -> int {
    let d = pow2(shift) as int;
    if x >= 0 {
        (x + d / 2) / d
    } else {
        -((-x + d / 2) / d)
    }
}

/// `2^shift` as a machine word.
pub(crate) fn pow2_u64(shift: u32) -> (r: u64)
    requires
        shift < 64,
    ensures
        r as nat == pow2(shift as nat),
        r >= 1,
{
    proof {
        lemma_u64_pow2_no_overflow(shift as nat);
        lemma_u64_shl_is_mul(1, shift as u64);
    }
    1u64 << (shift as u64)
}

proof fn lemma_rounded_quotient_le(m: int, d: int)
    requires
        m >= 0,
        d >= 1,
    ensures
        0 <= (m + d / 2) / d <= m,
{
    assert(0 <= (m + d / 2) / d <= m) by (nonlinear_arith)
        requires
            m >= 0,
            d >= 1,
    ;
}

/// Arithmetic right shift of `x` by `shift` bits, rounded to the nearest
/// integer with ties away from zero. Exact for `shift == 0`.
pub fn shift_round(x: i32, shift: u32) -> (r: i32)
    requires
        shift < 32,
    ensures
        r as int == shift_round_spec(x as int, shift as nat),
{
    let d = pow2_u64(shift);
    let half = d / 2;
    proof {
        lemma_u64_pow2_no_overflow(31);
        vstd::arithmetic::power2::lemma_pow2_strictly_increases(shift as nat, 32);
        vstd::arithmetic::power2::lemma2_to64();
    }
    if x >= 0 {
        let m = x as u64;
        let q = (m + half) / d;
        proof {
            lemma_rounded_quotient_le(m as int, d as int);
        }
        q as i32
    } else {
        let m = (-(x as i64)) as u64;
        let q = (m + half) / d;
        proof {
            lemma_rounded_quotient_le(m as int, d as int);
        }
        (-(q as i64)) as i32
    }
}

/// Rounding right shift on a wide accumulator, with the same rounding as
/// `shift_round`.
pub(crate) fn shift_round_wide(x: i128, shift: u32) -> (r: i128)
    requires
        shift < 64,
        -0x1_0000_0000_0000_0000_0000_0000 < x < 0x1_0000_0000_0000_0000_0000_0000,
    ensures
        r as int == shift_round_spec(x as int, shift as nat),
        -0x1_0000_0000_0000_0000_0000_0000 < r < 0x1_0000_0000_0000_0000_0000_0000,
{
    let d = pow2_u64(shift) as i128;
    let half = d / 2;
    if x >= 0 {
        let q = (x + half) / d;
        proof {
            lemma_rounded_quotient_le(x as int, d as int);
        }
        q
    } else {
        let m = -x;
        let q = (m + half) / d;
        proof {
            lemma_rounded_quotient_le(m as int, d as int);
        }
        -q
    }
}

/// The rounded value has the sign of `x` and no larger a magnitude.
pub proof fn lemma_shift_round_between(x: int, shift: nat)
    ensures
        x >= 0 ==> 0 <= shift_round_spec(x, shift) <= x,
        x < 0 ==> x <= shift_round_spec(x, shift) <= 0,
{
    vstd::arithmetic::power2::lemma_pow2_pos(shift);
    if x >= 0 {
        lemma_rounded_quotient_le(x, pow2(shift) as int);
    } else {
        lemma_rounded_quotient_le(-x, pow2(shift) as int);
    }
}

/// A shift by zero bits is exact.
pub proof fn lemma_shift_round_zero(x: int)
    ensures
        shift_round_spec(x, 0) == x,
{
    vstd::arithmetic::power2::lemma2_to64();
}

/// Rounding is odd-symmetric: `-x` rounds to the negation of what `x` rounds
/// to, so the rounding errors of inputs spread evenly around zero cancel and
/// the rounding adds no systematic bias.
pub proof fn lemma_shift_round_unbiased(x: int, shift: nat)
    ensures
        shift_round_spec(-x, shift) == -shift_round_spec(x, shift),
{
    let d = pow2(shift) as int;
    vstd::arithmetic::power2::lemma_pow2_pos(shift);
    vstd::arithmetic::div_mod::lemma_basic_div(d / 2, d);
}

/// The rounded value times `2^shift` lies within half a step of `x`: the shift
/// never truncates.
pub proof fn lemma_shift_round_error(x: int, shift: nat)
    ensures
        2 * (x - shift_round_spec(x, shift) * pow2(shift)) <= pow2(shift),
        2 * (shift_round_spec(x, shift) * pow2(shift) - x) <= pow2(shift),
{
    let d = pow2(shift) as int;
    vstd::arithmetic::power2::lemma_pow2_pos(shift);
    if shift > 0 {
        vstd::arithmetic::power2::lemma_pow2_unfold(shift);
    } else {
        vstd::arithmetic::power2::lemma2_to64();
    }
    assert(d == 1 || d % 2 == 0);
    let m = if x >= 0 { x } else { -x };
    let q = (m + d / 2) / d;
    vstd::arithmetic::div_mod::lemma_fundamental_div_mod(m + d / 2, d);
    assert(2 * (m - q * d) <= d && 2 * (q * d - m) <= d) by (nonlinear_arith)
        requires
            d >= 1,
            d == 1 || d % 2 == 0,
            m + d / 2 == d * q + (m + d / 2) % d,
            0 <= (m + d / 2) % d < d,
    ;
    if x >= 0 {
        assert(shift_round_spec(x, shift) == q);
    } else {
        assert(shift_round_spec(x, shift) == -q);
        assert(-q * d == -(q * d)) by (nonlinear_arith);
    }
}

} // verus!
