//! Second-order recursive (biquad) filter on fixed-point samples.
//!
//! Coefficients are Q2.30: `2^30` stands for 1.0, so each lies in
//! `[-2.0, 2.0)`. The feedback coefficients are stored negated, so that the
//! recurrence only adds:
//! `y0 = b0*x0 + b1*x1 + b2*x2 + a1*y1 + a2*y2`.
use crate::fixed::{shift_round_spec, shift_round_wide};
use vstd::prelude::*;

verus! {

/// History of one filter: the two previous inputs and the two previous
/// outputs, most recent first.
#[derive(Clone, Copy, Debug, PartialEq, Eq, Structural)]
pub struct IIRState {
    pub x1: i32,
    pub x2: i32,
    pub y1: i32,
    pub y2: i32,
}

impl IIRState {
    /// A history of zeros, as at the start of a session.
    pub fn new() -> (r: IIRState)
        ensures
            r == (IIRState { x1: 0, x2: 0, y1: 0, y2: 0 }),
    {
        IIRState { x1: 0, x2: 0, y1: 0, y2: 0 }
    }
}

/// Filter coefficients `[b0, b1, b2, a1, a2]` in Q2.30, `a0` being 1 and the
/// `a` coefficients negated.
#[derive(Clone, Copy, Debug)]
pub struct IIR {
    pub ba: [i32; 5],
}

/// Fractional bits of the coefficients.
pub const IIR_SHIFT: u32 = 30;

/// The exact sum of products of the recurrence, before rescaling.
pub open spec fn accumulate(ba: Seq<i32>, s: IIRState, x0: i32) -> int {
    ba[0] * x0 + ba[1] * s.x1 + ba[2] * s.x2 + ba[3] * s.y1 + ba[4] * s.y2
}

/// The sum of products rescaled from Q2.30 with the rounding shift.
pub open spec fn rescaled(ba: Seq<i32>, s: IIRState, x0: i32) -> int {
    shift_round_spec(accumulate(ba, s, x0), 30)
}

/// The filter's output: the rescaled sum, narrowed to 32 bits in two's
/// complement (coefficients of a stable design keep it in range, where it is
/// exact).
pub open spec fn iir_output(ba: Seq<i32>, s: IIRState, x0: i32) -> i32 {
    rescaled(ba, s, x0) as i32
}

/// The history after one input.
pub open spec fn iir_next(ba: Seq<i32>, s: IIRState, x0: i32) -> IIRState {
    IIRState { x1: x0, x2: s.x1, y1: iir_output(ba, s, x0), y2: s.y1 }
}

/// Whether a value fits a signed 32-bit word.
pub open spec fn fits_i32(v: int) -> bool {
    i32::MIN <= v <= i32::MAX
}

proof fn lemma_product_bound(a: i32, b: i32)
    ensures
        -0x4000_0000_0000_0000 <= a * b <= 0x4000_0000_0000_0000,
{
    assert(-0x4000_0000_0000_0000 <= a * b <= 0x4000_0000_0000_0000) by (nonlinear_arith)
        requires
            -0x8000_0000 <= a <= 0x7fff_ffff,
            -0x8000_0000 <= b <= 0x7fff_ffff,
    ;
}

impl IIR {
    /// Feeds one sample through the filter: computes the next output from
    /// the sample and the history, and shifts both into the history. The
    /// products are summed in 128 bits, where no overflow can occur.
    pub fn update(&self, xy: &mut IIRState, x0: i32) -> (y0: i32)
        ensures
            y0 == iir_output(self.ba@, *old(xy), x0),
            fits_i32(rescaled(self.ba@, *old(xy), x0)) ==> y0 == rescaled(
                self.ba@,
                *old(xy),
                x0,
            ),
            *final(xy) == iir_next(self.ba@, *old(xy), x0),
    {
        let s = *xy;
        proof {
            lemma_product_bound(self.ba@[0], x0);
            lemma_product_bound(self.ba@[1], s.x1);
            lemma_product_bound(self.ba@[2], s.x2);
            lemma_product_bound(self.ba@[3], s.y1);
            lemma_product_bound(self.ba@[4], s.y2);
        }
        let acc: i128 = self.ba[0] as i128 * x0 as i128 + self.ba[1] as i128 * s.x1 as i128
            + self.ba[2] as i128 * s.x2 as i128 + self.ba[3] as i128 * s.y1 as i128
            + self.ba[4] as i128 * s.y2 as i128;
        let wide = shift_round_wide(acc, IIR_SHIFT);
        let y0 = wide as i32;
        *xy = IIRState { x1: x0, x2: s.x1, y1: y0, y2: s.y1 };
        y0
    }
}

} // verus!
