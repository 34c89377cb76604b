//! Reciprocal phase-locked estimator of an external reference.
//!
//! Once per batch of ADC samples the estimator receives at most one
//! timestamp, in internal clock ticks modulo 2^32, of a rising edge of the
//! reference. From the interval between two edges it measures the reference
//! frequency directly (reciprocal counting), and it follows frequency and
//! phase with exponential averages whose time constants are
//! `2^pll_shift_frequency` and `2^pll_shift_phase` edges. Its output for each
//! batch is the reference phase at the batch's first sample and the phase
//! increment per sample, both in turns.
use crate::fixed::{lemma_shift_round_between, pow2_u64, shift_round_spec, shift_round_wide};
use crate::turn::{signed_i64, signed_of, wrap, wrap_i64, wrap_u128, lemma_wrap_shift};
use vstd::arithmetic::power2::{lemma_pow2_adds, lemma_pow2_pos, pow2};
use vstd::prelude::*;

verus! {

/// State of the estimator. The ADC samples every `2^adc_sample_ticks_log2`
/// ticks of the internal clock, and a batch holds `2^sample_buffer_size_log2`
/// samples.
#[derive(Clone, Copy, Debug)]
pub struct TimestampHandler {
    pub pll_shift_frequency: u8,
    pub pll_shift_phase: u8,
    pub adc_sample_ticks_log2: usize,
    pub sample_buffer_size_log2: usize,
    /// Tick of the first sample of the coming batch.
    pub batch_start: u32,
    /// Estimated reference phase at `batch_start`.
    pub phase: u32,
    /// Estimated reference phase increment per ADC sample.
    pub frequency: u32,
    /// Timestamp of the last reference edge seen.
    pub last_edge: Option<u32>,
    /// Whether a frequency has been measured yet.
    pub locked: bool,
}

/// The configuration that the estimator needs: clock ratios that together
/// fit the 32-bit phase accumulator, and averaging shifts that fit the
/// arithmetic.
pub open spec fn config_ok(
    pll_shift_frequency: u8,
    pll_shift_phase: u8,
    adc_sample_ticks_log2: usize,
    sample_buffer_size_log2: usize,
) -> bool {
    &&& pll_shift_frequency < 64
    &&& pll_shift_phase < 64
    &&& adc_sample_ticks_log2 + sample_buffer_size_log2 <= 32
}

/// Internal clock ticks in one batch.
pub open spec fn batch_ticks(h: TimestampHandler) -> int {
    pow2((h.adc_sample_ticks_log2 + h.sample_buffer_size_log2) as nat) as int
}

/// Phase increment per sample of a reference whose edges are `interval`
/// ticks apart: `2^32 * 2^adc_sample_ticks_log2 / interval`, rounded to
/// nearest, as a turn.
pub open spec fn reciprocal_frequency(interval: int, adc_sample_ticks_log2: nat) -> int {
    wrap((pow2(32 + adc_sample_ticks_log2) + interval / 2) / interval)
}

/// One step of an exponential average from `current` toward `target` with
/// gain `2^-shift`, the step rounded to nearest.
pub open spec fn ema(current: int, target: int, shift: nat) -> int {
    current + shift_round_spec(target - current, shift)
}

/// Reference phase at the batch start `start` implied by an edge (phase zero)
/// at tick `t` of the batch, for the frequency `f` per sample.
pub open spec fn implied_phase(t: u32, start: u32, f: int, adc_sample_ticks_log2: nat) -> int {
    wrap(-shift_round_spec(f * wrap(t - start), adc_sample_ticks_log2))
}

/// Ticks from the last edge to the edge at `t`, where there was a last edge
/// and the two differ.
pub open spec fn measured_interval(h: TimestampHandler, t: u32) -> Option<int> {
    match h.last_edge {
        Some(l) => if wrap(t - l) > 0 {
            Some(wrap(t - l))
        } else {
            None
        },
        None => None,
    }
}

/// Frequency estimate after the edge at `t`: the first measured interval
/// sets it, later ones move it by the exponential average.
pub open spec fn frequency_after(h: TimestampHandler, t: u32) -> int {
    match measured_interval(h, t) {
        Some(i) => {
            let inst = reciprocal_frequency(i, h.adc_sample_ticks_log2 as nat);
            if h.locked {
                ema(h.frequency as int, inst, h.pll_shift_frequency as nat)
            } else {
                inst
            }
        },
        None => h.frequency as int,
    }
}

/// Whether a frequency is known after the edge at `t`.
pub open spec fn locked_after(h: TimestampHandler, t: u32) -> bool {
    h.locked || measured_interval(h, t) is Some
}

/// Phase estimate at the start of the batch that holds the edge at `t`: set
/// to the implied phase when the frequency is first measured, moved toward
/// it by the exponential average afterwards, and held while no frequency is
/// known.
pub open spec fn phase_after(h: TimestampHandler, t: u32) -> int {
    let f = frequency_after(h, t);
    let implied = implied_phase(t, h.batch_start, f, h.adc_sample_ticks_log2 as nat);
    if !locked_after(h, t) {
        h.phase as int
    } else if !h.locked {
        implied
    } else {
        wrap(h.phase + shift_round_spec(signed_of(implied - h.phase), h.pll_shift_phase as nat))
    }
}

/// `(initial_phase, frequency)` that the estimator reports for a batch.
pub open spec fn estimate(h: TimestampHandler, timestamp: Option<u32>) -> (int, int) {
    match timestamp {
        Some(t) => (phase_after(h, t), frequency_after(h, t)),
        None => (h.phase as int, h.frequency as int),
    }
}

/// The estimator's state after a batch: the phase is carried forward by one
/// batch at the estimated frequency, and the batch start by one batch of
/// ticks.
pub open spec fn advanced(h: TimestampHandler, timestamp: Option<u32>) -> TimestampHandler {
    let e = estimate(h, timestamp);
    TimestampHandler {
        batch_start: wrap(h.batch_start + batch_ticks(h)) as u32,
        phase: wrap(e.0 + e.1 * pow2(h.sample_buffer_size_log2 as nat)) as u32,
        frequency: e.1 as u32,
        last_edge: match timestamp {
            Some(t) => Some(t),
            None => h.last_edge,
        },
        locked: match timestamp {
            Some(t) => locked_after(h, t),
            None => h.locked,
        },
        ..h
    }
}

fn reciprocal_frequency_exec(interval: u32, adc_sample_ticks_log2: usize) -> (r: u32)
    requires
        interval > 0,
        adc_sample_ticks_log2 <= 32,
    ensures
        r as int == reciprocal_frequency(interval as int, adc_sample_ticks_log2 as nat),
{
    let scale = pow2_u64(adc_sample_ticks_log2 as u32);
    proof {
        lemma_pow2_adds(32, adc_sample_ticks_log2 as nat);
        vstd::arithmetic::power2::lemma2_to64();
        vstd::bits::lemma_u64_pow2_no_overflow(adc_sample_ticks_log2 as nat);
    }
    let num: u128 = scale as u128 * 0x1_0000_0000u128;
    let q: u128 = (num + (interval / 2) as u128) / interval as u128;
    wrap_u128(q)
}

fn ema_exec(current: u32, target: u32, shift: u8) -> (r: u32)
    requires
        shift < 64,
    ensures
        r as int == ema(current as int, target as int, shift as nat),
{
    let diff: i128 = target as i128 - current as i128;
    let step = shift_round_wide(diff, shift as u32);
    proof {
        lemma_shift_round_between(diff as int, shift as nat);
    }
    (current as i128 + step) as u32
}

proof fn lemma_wrap_neg(r: int)
    requires
        r >= 0,
    ensures
        wrap(-r) == if r % 0x1_0000_0000int == 0 {
            0
        } else {
            0x1_0000_0000int - r % 0x1_0000_0000int
        },
{
    let m = 0x1_0000_0000int;
    vstd::arithmetic::div_mod::lemma_fundamental_div_mod(r, m);
    let q = r / m;
    if r % m == 0 {
        lemma_wrap_shift(-r, -q);
    } else {
        lemma_wrap_shift(-r, -q - 1);
    }
}

fn implied_phase_exec(t: u32, start: u32, f: u32, adc_sample_ticks_log2: usize) -> (r: u32)
    requires
        adc_sample_ticks_log2 <= 32,
    ensures
        r as int == implied_phase(t, start, f as int, adc_sample_ticks_log2 as nat),
{
    let d = t.wrapping_sub(start);
    proof {
        crate::turn::lemma_wrapping_ops(t, start);
        assert(f * d <= 0xffff_ffff * 0xffff_ffff) by (nonlinear_arith)
            requires
                f <= 0xffff_ffff,
                d <= 0xffff_ffff,
        ;
    }
    let prod: u128 = f as u128 * d as u128;
    let rounded = shift_round_wide(prod as i128, adc_sample_ticks_log2 as u32);
    proof {
        lemma_shift_round_between(prod as int, adc_sample_ticks_log2 as nat);
        lemma_wrap_neg(rounded as int);
    }
    let m = rounded % 0x1_0000_0000;
    if m == 0 {
        0
    } else {
        (0x1_0000_0000 - m) as u32
    }
}

impl TimestampHandler {
    /// Whether the configuration is one the estimator works with.
    pub open spec fn wf(&self) -> bool {
        config_ok(
            self.pll_shift_frequency,
            self.pll_shift_phase,
            self.adc_sample_ticks_log2,
            self.sample_buffer_size_log2,
        )
    }

    /// A cold estimator: no edge seen, phase and frequency zero, the first
    /// batch starting at tick zero.
    pub fn new(
        pll_shift_frequency: u8,
        pll_shift_phase: u8,
        adc_sample_ticks_log2: usize,
        sample_buffer_size_log2: usize,
    ) -> (r: TimestampHandler)
        requires
            config_ok(
                pll_shift_frequency,
                pll_shift_phase,
                adc_sample_ticks_log2,
                sample_buffer_size_log2,
            ),
        ensures
            r.wf(),
            r == (TimestampHandler {
                pll_shift_frequency,
                pll_shift_phase,
                adc_sample_ticks_log2,
                sample_buffer_size_log2,
                batch_start: 0,
                phase: 0,
                frequency: 0,
                last_edge: None,
                locked: false,
            }),
    {
        TimestampHandler {
            pll_shift_frequency,
            pll_shift_phase,
            adc_sample_ticks_log2,
            sample_buffer_size_log2,
            batch_start: 0,
            phase: 0,
            frequency: 0,
            last_edge: None,
            locked: false,
        }
    }
    /// Takes the batch's reference timestamp, if an edge fell in the batch,
    /// and returns `(initial_phase, frequency)` for the batch: the reference
    /// phase at its first sample and the phase increment per sample, in
    /// turns. Without a timestamp the estimate is carried forward unchanged;
    /// with one, frequency and phase move toward what the edge implies.
    pub fn update(&mut self, timestamp: Option<u32>) -> (r: (u32, u32))
        requires
            old(self).wf(),
        ensures
            final(self).wf(),
            (r.0 as int, r.1 as int) == estimate(*old(self), timestamp),
            *final(self) == advanced(*old(self), timestamp),
    {
        let a = self.adc_sample_ticks_log2;
        let b = self.sample_buffer_size_log2;
        let mut phase = self.phase;
        let mut frequency = self.frequency;
        let mut locked = self.locked;
        let mut last_edge = self.last_edge;
        if let Some(t) = timestamp {
            let was_locked = self.locked;
            if let Some(l) = self.last_edge {
                let interval = t.wrapping_sub(l);
                proof {
                    crate::turn::lemma_wrapping_ops(t, l);
                }
                if interval > 0 {
                    let inst = reciprocal_frequency_exec(interval, a);
                    if was_locked {
                        frequency = ema_exec(frequency, inst, self.pll_shift_frequency);
                    } else {
                        frequency = inst;
                    }
                    locked = true;
                }
            }
            if locked {
                let implied = implied_phase_exec(t, self.batch_start, frequency, a);
                if was_locked {
                    let err = signed_i64(implied as i64 - phase as i64);
                    let step = shift_round_wide(err as i128, self.pll_shift_phase as u32);
                    proof {
                        lemma_shift_round_between(err as int, self.pll_shift_phase as nat);
                    }
                    phase = wrap_i64(phase as i64 + step as i64);
                } else {
                    phase = implied;
                }
            }
            last_edge = Some(t);
        }
        proof {
            vstd::bits::lemma_u64_pow2_no_overflow(b as nat);
            vstd::bits::lemma_u64_pow2_no_overflow((a + b) as nat);
            assert(frequency * pow2(b as nat) <= 0xffff_ffff * 0xffff_ffff_ffff_ffff) by (nonlinear_arith)
                requires
                    frequency <= 0xffff_ffff,
                    pow2(b as nat) <= 0xffff_ffff_ffff_ffff,
            ;
        }
        let carried: u128 = frequency as u128 * pow2_u64(b as u32) as u128;
        let next_phase = wrap_u128(phase as u128 + carried);
        let next_start = wrap_u128(self.batch_start as u128 + pow2_u64((a + b) as u32) as u128);
        self.phase = next_phase;
        self.frequency = frequency;
        self.locked = locked;
        self.last_edge = last_edge;
        self.batch_start = next_start;
        (phase, frequency)
    }
}

proof fn lemma_interval_of(h: TimestampHandler, l: u32, period: int)
    requires
        h.last_edge == Some(l),
        0 < period < 0x1_0000_0000,
    ensures
        measured_interval(h, wrap(l + period) as u32) == Some(period),
{
    let t = wrap(l + period);
    crate::turn::lemma_wrap_shift(l + period, if l + period >= 0x1_0000_0000int { 1 } else { 0 });
    crate::turn::lemma_wrap_shift(t - l, if t - l < 0 { -1 } else { 0 });
}

/// Cold-start law: the first interval between two edges sets the frequency
/// estimate to the reciprocal measurement itself, and the estimator locks.
pub proof fn lemma_first_interval_sets_frequency(h: TimestampHandler, l: u32, period: int)
    requires
        h.wf(),
        !h.locked,
        h.last_edge == Some(l),
        0 < period < 0x1_0000_0000,
    ensures
        frequency_after(h, wrap(l + period) as u32) == reciprocal_frequency(
            period,
            h.adc_sample_ticks_log2 as nat,
        ),
        locked_after(h, wrap(l + period) as u32),
{
    lemma_interval_of(h, l, period);
}

/// Lock-stability law: once locked on the frequency of a reference whose
/// edges come `period` ticks apart, a further edge `period` ticks after the
/// last leaves the frequency estimate where it is; batches without an edge
/// hold it too.
pub proof fn lemma_lock_is_stable(h: TimestampHandler, l: u32, period: int)
    requires
        h.wf(),
        h.locked,
        h.last_edge == Some(l),
        0 < period < 0x1_0000_0000,
        h.frequency == reciprocal_frequency(period, h.adc_sample_ticks_log2 as nat),
    ensures
        frequency_after(h, wrap(l + period) as u32) == h.frequency,
        advanced(h, Some(wrap(l + period) as u32)).frequency == h.frequency,
        advanced(h, None).frequency == h.frequency,
        advanced(h, Some(wrap(l + period) as u32)).locked,
{
    lemma_interval_of(h, l, period);
    vstd::arithmetic::power2::lemma_pow2_pos(h.pll_shift_frequency as nat);
    vstd::arithmetic::div_mod::lemma_basic_div(
        pow2(h.pll_shift_frequency as nat) as int / 2,
        pow2(h.pll_shift_frequency as nat) as int,
    );
}

/// Convergence law: each edge `period` ticks after the last moves a locked
/// frequency estimate toward the reciprocal measurement without passing it,
/// so the distance to the true increment never grows.
pub proof fn lemma_frequency_approaches(h: TimestampHandler, l: u32, period: int)
    requires
        h.wf(),
        h.locked,
        h.last_edge == Some(l),
        0 < period < 0x1_0000_0000,
    ensures
        ({
            let target = reciprocal_frequency(period, h.adc_sample_ticks_log2 as nat);
            let f = frequency_after(h, wrap(l + period) as u32);
            &&& h.frequency <= target ==> h.frequency <= f <= target
            &&& target <= h.frequency ==> target <= f <= h.frequency
        }),
{
    lemma_interval_of(h, l, period);
    let target = reciprocal_frequency(period, h.adc_sample_ticks_log2 as nat);
    lemma_shift_round_between(target - h.frequency, h.pll_shift_frequency as nat);
}

/// Phase-lock law: when a locked estimator already holds the phase that an
/// edge at `t` implies for its frequency, and that frequency does not move
/// (the edge comes one measured period after the last), the edge leaves the
/// phase estimate unchanged.
pub proof fn lemma_phase_lock_is_stable(h: TimestampHandler, l: u32, period: int)
    requires
        h.wf(),
        h.locked,
        h.last_edge == Some(l),
        0 < period < 0x1_0000_0000,
        h.frequency == reciprocal_frequency(period, h.adc_sample_ticks_log2 as nat),
        h.phase == implied_phase(
            wrap(l + period) as u32,
            h.batch_start,
            h.frequency as int,
            h.adc_sample_ticks_log2 as nat,
        ),
    ensures
        phase_after(h, wrap(l + period) as u32) == h.phase,
        estimate(h, Some(wrap(l + period) as u32)) == (h.phase as int, h.frequency as int),
{
    lemma_lock_is_stable(h, l, period);
    crate::turn::lemma_wrap_shift(0, 0);
    crate::turn::lemma_wrap_shift(h.phase as int, 0);
    lemma_pow2_pos(h.pll_shift_phase as nat);
    vstd::arithmetic::div_mod::lemma_basic_div(
        pow2(h.pll_shift_phase as nat) as int / 2,
        pow2(h.pll_shift_phase as nat) as int,
    );
}

} // verus!
