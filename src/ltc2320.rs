//! Sequencing of the LTC2320 ADC readout.
//!
//! A conversion is started by pulling nCNV low and starting a timer that
//! fires after the conversion time; the timer interrupt stops the timer and
//! starts the QSPI readout; the QSPI interrupt sets nCNV high again and
//! collects the data. This module tracks that sequence and decides each
//! step; the caller drives the pin, the timer and the QSPI peripheral.
use vstd::prelude::*;

verus! {

/// A conversion was requested while the conversion timer was still running.
#[derive(Clone, Copy, Debug, PartialEq, Eq, Structural)]
pub struct TimerRunningError;

/// A readout was requested while the previous one was still in progress.
#[derive(Clone, Copy, Debug, PartialEq, Eq, Structural)]
pub struct TransferBusyError;

/// Bytes read out per conversion.
pub const N_BYTES: usize = 16;

/// Minimum conversion time in nanoseconds.
pub const TCONV_NS: u32 = 450;

/// Relies on fugit's `Duration::into_rate`: a duration of `ns` nanosecond
/// ticks becomes a rate of `1_000_000_000 / ns` hertz (integer division);
/// it panics on zero, which `requires` leaves out.
#[verifier::external_body]
fn rate_of_nanos(ns: u32) -> (r: u32)
    requires
        ns > 0,
    ensures
        r == 1_000_000_000u32 / ns,
{
    fugit::NanosDurationU32::from_ticks(ns).into_rate::<1, 1>().raw()
}

/// State of the readout sequence.
#[derive(Clone, Copy, Debug, PartialEq, Eq, Structural)]
pub struct Ltc2320 {
    /// Level of the nCNV pin.
    pub cnv_high: bool,
    /// Whether the conversion timer runs.
    pub timer_running: bool,
    /// Whether a QSPI readout is in progress.
    pub transfer_pending: bool,
}

impl Ltc2320 {
    /// An idle converter: nCNV high, timer stopped, no readout.
    pub fn new() -> (r: Ltc2320)
        ensures
            r == (Ltc2320 { cnv_high: true, timer_running: false, transfer_pending: false }),
    {
        Ltc2320 { cnv_high: true, timer_running: false, transfer_pending: false }
    }

    /// Sets nCNV low and starts the conversion timer. Returns the rate in
    /// hertz at which the timer must fire (the reciprocal of the conversion
    /// time), or `TimerRunningError` if the timer still runs, in which case
    /// nCNV is low all the same and the timer is left alone.
    pub fn start_conversion(&mut self) -> (r: Result<u32, TimerRunningError>)
        ensures
            !final(self).cnv_high,
            final(self).transfer_pending == old(self).transfer_pending,
            final(self).timer_running,
            old(self).timer_running ==> r == Err::<u32, TimerRunningError>(TimerRunningError),
            !old(self).timer_running ==> r == Ok::<u32, TimerRunningError>(
                1_000_000_000u32 / TCONV_NS,
            ),
    {
        self.cnv_high = false;
        if self.timer_running {
            return Err(TimerRunningError);
        }
        self.timer_running = true;
        Ok(rate_of_nanos(TCONV_NS))
    }

    /// Conversion done: stops and clears the timer and starts the readout.
    /// Returns the number of bytes to read, or `TransferBusyError` if a
    /// readout is still in progress.
    pub fn handle_conv_done_irq(&mut self) -> (r: Result<usize, TransferBusyError>)
        ensures
            !final(self).timer_running,
            final(self).cnv_high == old(self).cnv_high,
            final(self).transfer_pending,
            old(self).transfer_pending ==> r == Err::<usize, TransferBusyError>(
                TransferBusyError,
            ),
            !old(self).transfer_pending ==> r == Ok::<usize, TransferBusyError>(N_BYTES),
    {
        self.timer_running = false;
        if self.transfer_pending {
            return Err(TransferBusyError);
        }
        self.transfer_pending = true;
        Ok(N_BYTES)
    }

    /// Readout done: sets nCNV high again and ends the readout.
    pub fn handle_transfer_done_irq(&mut self)
        ensures
            final(self).cnv_high,
            !final(self).transfer_pending,
            final(self).timer_running == old(self).timer_running,
    {
        self.cnv_high = true;
        self.transfer_pending = false;
    }
}

} // verus!
