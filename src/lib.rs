//! Signal-processing core of a lock-in amplifier: fixed-point trigonometry,
//! a fixed-point biquad, a reciprocal phase-locked estimator of an external
//! reference, and the demodulator that ties them together; plus the
//! sequencing logic of the output-stage drivers.
pub mod fixed;
pub mod turn;
pub mod trig;
pub mod iir_int;
pub mod reciprocal_pll;
pub mod lockin;
pub mod relay;
pub mod ltc2320;
pub mod adc_internal;

pub use fixed::shift_round;
