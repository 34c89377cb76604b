//! Configuration and channel routing of the internal ADCs that sense the
//! Driver's output voltage and current.
use vstd::prelude::*;

verus! {

/// One of the two Driver outputs.
#[derive(Clone, Copy, Debug, PartialEq, Eq, Structural)]
pub enum OutputChannelIdx {
    Zero,
    One,
}

/// A sensed quantity of an output.
#[derive(Clone, Copy, Debug, PartialEq, Eq, Structural)]
pub enum AdcChannel {
    OutputVoltage(OutputChannelIdx),
    OutputCurrent(OutputChannelIdx),
}

/// The ADC peripheral that samples a channel.
#[derive(Clone, Copy, Debug, PartialEq, Eq, Structural)]
pub enum AdcUnit {
    Adc1,
    Adc3,
}

/// Which ADC samples a channel: output zero is wired to ADC1, output one to
/// ADC3, for voltage and current alike.
pub open spec fn unit_of(ch: AdcChannel) -> AdcUnit {
    match ch {
        AdcChannel::OutputVoltage(OutputChannelIdx::Zero) => AdcUnit::Adc1,
        AdcChannel::OutputCurrent(OutputChannelIdx::Zero) => AdcUnit::Adc1,
        _ => AdcUnit::Adc3,
    }
}

/// Settings shared by both ADCs.
#[derive(Clone, Copy, Debug, PartialEq, Eq, Structural)]
pub struct AdcInternal {
    /// Bits per conversion.
    pub resolution_bits: u32,
    /// Sampling time in ADC clock cycles (64 cycles of a 50 MHz clock give
    /// 1.28 us, above the 172 ns that the slow channels need for 16 bits).
    pub sample_time_cycles: u32,
    /// Divider of the ADC kernel clock, applied after initialisation and
    /// before enabling.
    pub clock_prescaler: u32,
}

impl AdcInternal {
    /// The settings with which both ADCs are brought up.
    pub fn new() -> (r: AdcInternal)
        ensures
            r == (AdcInternal { resolution_bits: 16, sample_time_cycles: 64, clock_prescaler: 2 }),
    {
        AdcInternal { resolution_bits: 16, sample_time_cycles: 64, clock_prescaler: 2 }
    }

    /// The ADC that samples a channel.
    pub fn unit(&self, ch: AdcChannel) -> (r: AdcUnit)
        ensures
            r == unit_of(ch),
    {
        match ch {
            AdcChannel::OutputVoltage(OutputChannelIdx::Zero) => AdcUnit::Adc1,
            AdcChannel::OutputCurrent(OutputChannelIdx::Zero) => AdcUnit::Adc1,
            _ => AdcUnit::Adc3,
        }
    }

    /// Full-scale code of a conversion, `2^resolution_bits - 1`.
    pub fn full_scale_code(&self) -> (r: u32)
        requires
            1 <= self.resolution_bits <= 32,
        ensures
            r as nat == vstd::arithmetic::power2::pow2(self.resolution_bits as nat) - 1,
    {
        let p = crate::fixed::pow2_u64(self.resolution_bits);
        proof {
            vstd::arithmetic::power2::lemma_pow2_strictly_increases(
                self.resolution_bits as nat,
                33,
            );
            vstd::arithmetic::power2::lemma2_to64();
            vstd::arithmetic::power2::lemma_pow2_unfold(33);
        }
        (p - 1) as u32
    }
}

} // verus!
