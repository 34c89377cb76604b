//! Modular arithmetic on 32-bit turns.
use vstd::arithmetic::div_mod::lemma_fundamental_div_mod_converse;
use vstd::prelude::*;

verus! {

/// `v` reduced modulo 2^32 into `0 .. 2^32`.
pub open spec fn wrap(v: int) -> int {
    v % 0x1_0000_0000int
}

/// `v` reduced modulo 2^32 into `-2^31 .. 2^31`, the signed reading of the
/// same word.
pub open spec fn signed_of(v: int) -> int {
    let w = wrap(v);
    if w >= 0x8000_0000 {
        w - 0x1_0000_0000int
    } else {
        w
    }
}

/// `wrap(v)` is `v - k * 2^32` for the `k` that puts it in range.
pub proof fn lemma_wrap_shift(v: int, k: int)
    requires
        0 <= v - k * 0x1_0000_0000int < 0x1_0000_0000int,
    ensures
        wrap(v) == v - k * 0x1_0000_0000int,
{
    lemma_fundamental_div_mod_converse(v, 0x1_0000_0000int, k, v - k * 0x1_0000_0000int);
}

/// A value within two turns of zero, reduced to a turn.
pub fn wrap_i64(v: i64) -> (r: u32)
    requires
        -0x2_0000_0000 <= v < 0x2_0000_0000,
    ensures
        r as int == wrap(v as int),
{
    if v < -0x1_0000_0000 {
        proof {
            lemma_wrap_shift(v as int, -2);
        }
        (v + 0x2_0000_0000) as u32
    } else if v < 0 {
        proof {
            lemma_wrap_shift(v as int, -1);
        }
        (v + 0x1_0000_0000) as u32
    } else if v < 0x1_0000_0000 {
        proof {
            lemma_wrap_shift(v as int, 0);
        }
        v as u32
    } else {
        proof {
            lemma_wrap_shift(v as int, 1);
        }
        (v - 0x1_0000_0000) as u32
    }
}

/// A non-negative value of any size, reduced to a turn.
pub fn wrap_u128(v: u128) -> (r: u32)
    ensures
        r as int == wrap(v as int),
{
    (v % 0x1_0000_0000) as u32
}

/// A value within two turns of zero, read as a signed turn.
pub fn signed_i64(v: i64) -> (r: i64)
    requires
        -0x2_0000_0000 <= v < 0x2_0000_0000,
    ensures
        r as int == signed_of(v as int),
        -0x8000_0000 <= r < 0x8000_0000,
{
    let w = wrap_i64(v) as i64;
    if w >= 0x8000_0000 {
        w - 0x1_0000_0000
    } else {
        w
    }
}

/// The wrapping operations of `u32` agree with `wrap`.
pub proof fn lemma_wrapping_ops(x: u32, y: u32)
    ensures
        vstd::wrapping::u32_specs::wrapping_add(x, y) as int == wrap(x + y),
        vstd::wrapping::u32_specs::wrapping_sub(x, y) as int == wrap(x - y),
        vstd::wrapping::u32_specs::wrapping_mul(x, y) as int == wrap(x * y),
{
    if x + y >= 0x1_0000_0000int {
        lemma_wrap_shift(x + y, 1);
    } else {
        lemma_wrap_shift(x + y, 0);
    }
    if x - y < 0 {
        lemma_wrap_shift(x - y, -1);
    } else {
        lemma_wrap_shift(x - y, 0);
    }
}

} // verus!
