//! Band-limited waveform synthesis and a bounded sample handoff channel.
//!
//! An [`oscillator::Oscillator`] advances an integer phase clock once per
//! sample and reports, exactly, the truncated harmonic series that evaluates
//! to that sample; the floating-point evaluation itself is left to the
//! unverified audio front end. A [`channel::SampleChannel`] is the bounded
//! FIFO handoff between the sample producer and the hardware callback, and a
//! [`pump::StreamPump`] fans one popped sample out across all channel slots
//! of an output frame.

use vstd::prelude::*;

pub mod channel;
pub mod oscillator;
pub mod pump;
pub mod waveform;

verus! {

/// Invalid configuration handed over by the stream-setup collaborator is
/// rejected at construction, never silently coerced.
#[derive(Clone, Copy, PartialEq, Eq, Structural, Debug)]
pub enum ConfigError {
    /// The output sample rate is zero (or too small to buffer anything).
    InvalidSampleRate,
    /// The output channel count is zero.
    InvalidChannelCount,
    /// The requested channel capacity is zero.
    InvalidCapacity,
}

} // verus!
