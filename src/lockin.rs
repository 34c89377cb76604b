//! Lock-in demodulator: mixes each ADC sample with a carrier locked to the
//! reference (or to a harmonic of it) and low-pass filters the in-phase and
//! quadrature products.
use crate::fixed::{shift_round, shift_round_spec};
use crate::iir_int::{iir_next, IIRState, IIR};
use crate::reciprocal_pll::{advanced, estimate, TimestampHandler};
use crate::trig::{cossin, cossin_spec, lemma_cossin_bounds};
use crate::turn::{lemma_wrapping_ops, wrap};
use vstd::arithmetic::div_mod::{lemma_add_mod_noop, lemma_mul_mod_noop_right};
use vstd::arithmetic::power2::pow2;
use vstd::prelude::*;

verus! {

/// One lock-in channel: the harmonic of the reference to demodulate at, the
/// carrier's phase offset in turns, the low-pass coefficients, and the
/// histories of the in-phase (index 0) and quadrature (index 1) filters.
#[derive(Clone, Copy, Debug)]
pub struct Lockin {
    pub harmonic: u32,
    pub phase_offset: u32,
    pub iir: IIR,
    pub iir_state: [IIRState; 2],
}

/// Carrier phase, as a turn, for sample `i` of a batch whose reference phase
/// at the first sample is `initial_phase` and whose increment per sample is
/// `frequency`: `harmonic * (frequency * i + initial_phase) + phase_offset`
/// modulo 2^32.
pub open spec fn demodulation_phase(
    harmonic: u32,
    phase_offset: u32,
    initial_phase: u32,
    frequency: u32,
    i: int,
) -> int {
    wrap(harmonic * (frequency * i + initial_phase) + phase_offset)
}

/// The signed reading of a turn in `0 .. 2^32`.
pub open spec fn signed_word(p: int) -> i32 {
    if p >= 0x8000_0000 {
        (p - 0x1_0000_0000int) as i32
    } else {
        p as i32
    }
}

/// In-phase and quadrature products of a sample with the carrier at `phase`:
/// the sample times the sine and the cosine, each first rescaled from 2^31
/// to 2^15 full scale with the rounding shift.
pub open spec fn mixed(sample: i16, phase: int) -> (int, int) {
    let cs = cossin_spec(signed_word(phase));
    (sample * shift_round_spec(cs.1, 16), sample * shift_round_spec(cs.0, 16))
}

/// Filter histories after one sample mixed at `phase`.
pub open spec fn lockin_step(
    ba: Seq<i32>,
    st: (IIRState, IIRState),
    sample: i16,
    phase: int,
) -> (IIRState, IIRState) {
    let m = mixed(sample, phase);
    (iir_next(ba, st.0, m.0 as i32), iir_next(ba, st.1, m.1 as i32))
}

/// Filter histories after the samples of a batch, from the histories `st`,
/// each sample mixed at its carrier phase.
pub open spec fn lockin_run(
    l: Lockin,
    st: (IIRState, IIRState),
    samples: Seq<i16>,
    initial_phase: u32,
    frequency: u32,
) -> (IIRState, IIRState)
    decreases samples.len(),
{
    if samples.len() == 0 {
        st
    } else {
        let n = samples.len() - 1;
        lockin_step(
            l.iir.ba@,
            lockin_run(l, st, samples.take(n), initial_phase, frequency),
            samples[n],
            demodulation_phase(l.harmonic, l.phase_offset, initial_phase, frequency, n),
        )
    }
}

/// Reduction modulo 2^32 may be applied to the inner sum of the carrier phase.
proof fn lemma_phase_inner_wrap(harmonic: u32, phase_offset: u32, x: int)
    ensures
        wrap(harmonic * wrap(x) + phase_offset) == wrap(harmonic * x + phase_offset),
{
    let m = 0x1_0000_0000int;
    lemma_mul_mod_noop_right(harmonic as int, x, m);
    lemma_add_mod_noop(harmonic * wrap(x), phase_offset as int, m);
    lemma_add_mod_noop(harmonic * x, phase_offset as int, m);
}

proof fn lemma_wrap_add_wrap(x: int, y: int)
    ensures
        wrap(wrap(x) + y) == wrap(x + y),
{
    let m = 0x1_0000_0000int;
    lemma_add_mod_noop(x, y, m);
    lemma_add_mod_noop(wrap(x), y, m);
    vstd::arithmetic::div_mod::lemma_mod_twice(x, m);
}

proof fn lemma_product_fits(sample: i16, c: int)
    requires
        -0x8000_0000 < c < 0x8000_0000,
    ensures
        -0x8000 <= shift_round_spec(c, 16) <= 0x8000,
        -0x4000_0000 <= sample * shift_round_spec(c, 16) <= 0x4000_0000,
{
    vstd::arithmetic::power2::lemma2_to64();
    let r = shift_round_spec(c, 16);
    if c >= 0 {
        vstd::arithmetic::div_mod::lemma_div_is_ordered(c + 0x8000, 0x8000_7fffint, 0x1_0000);
    } else {
        vstd::arithmetic::div_mod::lemma_div_is_ordered(-c + 0x8000, 0x8000_7fffint, 0x1_0000);
    }
    assert(-0x4000_0000 <= sample * r <= 0x4000_0000) by (nonlinear_arith)
        requires
            -0x8000 <= sample <= 0x7fff,
            -0x8000 <= r <= 0x8000,
    ;
}

impl Lockin {
    /// A channel with the given configuration and zeroed filter histories.
    pub fn new(harmonic: u32, phase_offset: u32, iir: IIR) -> (r: Lockin)
        ensures
            r.harmonic == harmonic,
            r.phase_offset == phase_offset,
            r.iir == iir,
            r.iir_state@ == seq![IIRState { x1: 0, x2: 0, y1: 0, y2: 0 }; 2],
    {
        let zero = IIRState::new();
        let r = Lockin { harmonic, phase_offset, iir, iir_state: [zero, zero] };
        assert(r.iir_state@ =~= seq![IIRState { x1: 0, x2: 0, y1: 0, y2: 0 }; 2]);
        r
    }
    /// Demodulates one batch. For each sample in order, the carrier phase is
    /// `demodulation_phase` at the sample's index; the sample is mixed with
    /// the carrier's sine (in-phase) and cosine (quadrature), and each product
    /// advances its filter once. Returns the in-phase and quadrature filter
    /// outputs of the batch's last sample; for an empty batch, the most
    /// recent outputs.
    pub fn update(&mut self, samples: &[i16], initial_phase: u32, frequency: u32) -> (r: (
        i32,
        i32,
    ))
        requires
            samples@.len() <= 0x1_0000_0000,
        ensures
            final(self).harmonic == old(self).harmonic,
            final(self).phase_offset == old(self).phase_offset,
            final(self).iir == old(self).iir,
            (final(self).iir_state@[0], final(self).iir_state@[1]) == lockin_run(
                *old(self),
                (old(self).iir_state@[0], old(self).iir_state@[1]),
                samples@,
                initial_phase,
                frequency,
            ),
            r == (final(self).iir_state@[0].y1, final(self).iir_state@[1].y1),
    {
        let ghost l = *self;
        let ghost st0 = (self.iir_state@[0], self.iir_state@[1]);
        let mut si = self.iir_state[0];
        let mut sq = self.iir_state[1];
        let n = samples.len();
        let mut i: usize = 0;
        while i < n
            invariant
                n == samples@.len(),
                n <= 0x1_0000_0000,
                0 <= i <= n,
                l == *old(self),
                self.harmonic == l.harmonic,
                self.phase_offset == l.phase_offset,
                self.iir == l.iir,
                (si, sq) == lockin_run(l, st0, samples@.take(i as int), initial_phase, frequency),
            decreases n - i,
        {
            let k = i as u32;
            let inner = frequency.wrapping_mul(k).wrapping_add(initial_phase);
            let phase = self.harmonic.wrapping_mul(inner).wrapping_add(self.phase_offset);
            proof {
                lemma_wrapping_ops(frequency, k);
                lemma_wrapping_ops(frequency.wrapping_mul(k), initial_phase);
                lemma_wrapping_ops(self.harmonic, inner);
                lemma_wrapping_ops(self.harmonic.wrapping_mul(inner), self.phase_offset);
                lemma_wrap_add_wrap(frequency * k, initial_phase as int);
                lemma_wrap_add_wrap(self.harmonic * inner, self.phase_offset as int);
                lemma_phase_inner_wrap(self.harmonic, self.phase_offset, frequency * k + initial_phase);
                assert(phase as int == demodulation_phase(
                    l.harmonic,
                    l.phase_offset,
                    initial_phase,
                    frequency,
                    i as int,
                ));
            }
            let signed: i32 = if phase >= 0x8000_0000 {
                (phase as i64 - 0x1_0000_0000i64) as i32
            } else {
                phase as i32
            };
            let (c, s) = cossin(signed);
            proof {
                lemma_cossin_bounds(signed);
                lemma_product_fits(samples@[i as int], c as int);
                lemma_product_fits(samples@[i as int], s as int);
            }
            let x = samples[i] as i32;
            let in_phase = x * shift_round(s, 16);
            let quadrature = x * shift_round(c, 16);
            self.iir.update(&mut si, in_phase);
            self.iir.update(&mut sq, quadrature);
            proof {
                let t = samples@.take(i as int + 1);
                assert(t.take(i as int) =~= samples@.take(i as int));
                assert(t[i as int] == samples@[i as int]);
            }
            i += 1;
        }
        proof {
            assert(samples@.take(n as int) =~= samples@);
        }
        self.iir_state = [si, sq];
        (si.y1, sq.y1)
    }
}

/// Batch-boundary law: demodulating a stream in two consecutive batches,
/// the second starting at the phase the first one reaches
/// (`initial_phase + frequency * len(first)`), leaves the filters exactly as
/// demodulating the whole stream in one batch does.
pub proof fn lemma_batches_compose(
    l: Lockin,
    st: (IIRState, IIRState),
    first: Seq<i16>,
    second: Seq<i16>,
    initial_phase: u32,
    frequency: u32,
)
    ensures
        lockin_run(
            l,
            lockin_run(l, st, first, initial_phase, frequency),
            second,
            wrap(initial_phase + frequency * first.len()) as u32,
            frequency,
        ) == lockin_run(l, st, first + second, initial_phase, frequency),
    decreases second.len(),
{
    let whole = first + second;
    if second.len() == 0 {
        assert(whole =~= first);
    } else {
        let j = second.len() - 1;
        let n = first.len();
        let next = wrap(initial_phase + frequency * n) as u32;
        lemma_batches_compose(l, st, first, second.take(j), initial_phase, frequency);
        assert(whole.take(n + j) =~= first + second.take(j));
        assert(whole[n + j] == second[j]);
        assert(frequency * (n + j) == frequency * n + frequency * j) by (nonlinear_arith);
        assert(wrap(initial_phase + frequency * n) == next);
        lemma_wrap_add_wrap(initial_phase + frequency * n, frequency * j);
        assert(frequency * j + next == wrap(initial_phase + frequency * n) + frequency * j);
        lemma_phase_inner_wrap(l.harmonic, l.phase_offset, frequency * j + next);
        lemma_phase_inner_wrap(l.harmonic, l.phase_offset, frequency * (n + j) + initial_phase);
        assert(demodulation_phase(l.harmonic, l.phase_offset, next, frequency, j)
            == demodulation_phase(l.harmonic, l.phase_offset, initial_phase, frequency, n + j));
    }
}

/// Batch-boundary law for the whole pipeline: over batches without a
/// reference edge, the estimator's phase for the next batch continues the
/// carrier of the current one, so demodulating two such batches with the
/// estimator's outputs leaves the filters exactly as demodulating their
/// samples as one batch with the first output does.
pub proof fn lemma_pipeline_batches_compose(
    h: TimestampHandler,
    l: Lockin,
    st: (IIRState, IIRState),
    first: Seq<i16>,
    second: Seq<i16>,
)
    requires
        h.wf(),
        first.len() == pow2(h.sample_buffer_size_log2 as nat),
    ensures
        ({
            let e1 = estimate(h, None);
            let e2 = estimate(advanced(h, None), None);
            lockin_run(
                l,
                lockin_run(l, st, first, e1.0 as u32, e1.1 as u32),
                second,
                e2.0 as u32,
                e2.1 as u32,
            ) == lockin_run(l, st, first + second, e1.0 as u32, e1.1 as u32)
        }),
{
    lemma_batches_compose(l, st, first, second, h.phase, h.frequency);
}

} // verus!
