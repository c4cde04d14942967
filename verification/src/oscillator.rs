//! The oscillator: an integer phase clock plus the current shape and pitch.
//!
//! Each sample request advances the phase index by one, wrapping modulo the
//! sample rate, and yields the exact harmonic series that evaluates to the new
//! sample. Evaluating that series in floating point — summing
//! `(1/k^gain_exponent) · sin(phase_index · frequency · k · 2π / sample_rate)`
//! over the reported multiples `k` — is the unverified front end's one job;
//! everything that decides *which* terms are summed, and at *which* phase, is
//! verified here.

use vstd::arithmetic::div_mod::{
    lemma_add_mod_noop_right,
    lemma_mod_add_multiples_vanish,
    lemma_small_mod,
};
use vstd::prelude::*;

use crate::waveform::{
    gain_exponent,
    harmonics,
    spec_gain_exponent,
    spec_harmonics,
    Waveform,
};
use crate::ConfigError;

verus! {

/// The exact description of one output sample: the sample's value is
/// `sum over k in harmonics of (1/k^gain_exponent) ·
/// sin(phase_index · (frequency · k) · 2π / sample_rate)`,
/// with the frequency in millihertz. Evaluating this sum is the only
/// floating-point step of synthesis and is left to the caller.
#[derive(Clone, PartialEq, Eq, Debug)]
pub struct SampleTerms {
    /// The phase index the sample is taken at, already advanced.
    pub phase_index: u32,
    /// The output sample rate in Hz.
    pub sample_rate: u32,
    /// The fundamental frequency in millihertz.
    pub frequency_mhz: u64,
    /// Exponent of the per-harmonic gain `1 / k^e`.
    pub gain_exponent: u32,
    /// The harmonic multiples that survive the Nyquist truncation.
    pub harmonics: Vec<u64>,
}

/// A monophonic oscillator: owns the phase clock and the current waveform and
/// frequency selection. State is private; it changes only through
/// [`Oscillator::next_sample`], [`Oscillator::set_waveform`] and
/// [`Oscillator::set_frequency`].
pub struct Oscillator {
    waveform: Waveform,
    frequency_mhz: u64,
    sample_rate: u32,
    phase_index: u32,
}

/// The phase index reached after `steps` further samples from `start`: each
/// step adds one and wraps modulo the sample rate.
pub open spec fn phase_after(start: u32, steps: nat, sample_rate: u32) -> int
    decreases steps,
{
    if steps == 0 {
        start as int
    } else {
        (phase_after(start, (steps - 1) as nat, sample_rate) + 1) % (sample_rate as int)
    }
}

/// The phase clock is plain modular addition: after `steps` samples the phase
/// index is `(start + steps) % sample_rate`.
pub proof fn lemma_phase_after_closed_form(start: u32, steps: nat, sample_rate: u32)
    requires
        sample_rate >= 1,
        start < sample_rate,
    ensures
        phase_after(start, steps, sample_rate) == (start + steps) % (sample_rate as int),
    decreases steps,
{
    let m = sample_rate as int;
    if steps == 0 {
        lemma_small_mod(start as nat, sample_rate as nat);
    } else {
        lemma_phase_after_closed_form(start, (steps - 1) as nat, sample_rate);
        lemma_add_mod_noop_right(1, start + steps - 1, m);
    }
}

/// Advancing the phase clock by a whole sample rate's worth of steps returns
/// it to the same value, whatever the starting point: since a sample is a
/// function of the phase index and of the (unchanged) waveform, frequency and
/// sample rate alone, the stream of sample descriptions repeats with period
/// `sample_rate` samples.
pub proof fn lemma_phase_periodic(start: u32, steps: nat, sample_rate: u32)
    requires
        sample_rate >= 1,
        start < sample_rate,
    ensures
        phase_after(start, steps + sample_rate as nat, sample_rate) == phase_after(
            start,
            steps,
            sample_rate,
        ),
{
    lemma_phase_after_closed_form(start, steps, sample_rate);
    lemma_phase_after_closed_form(start, steps + sample_rate as nat, sample_rate);
    lemma_mod_add_multiples_vanish(start + steps, sample_rate as int);
}

impl Oscillator {
    /// The selected waveform.
    pub closed spec fn spec_waveform(self) -> Waveform {
        self.waveform
    }

    /// The selected fundamental frequency, in millihertz.
    pub closed spec fn spec_frequency_mhz(self) -> u64 {
        self.frequency_mhz
    }

    /// The fixed output sample rate, in Hz.
    pub closed spec fn spec_sample_rate(self) -> u32 {
        self.sample_rate
    }

    /// The phase clock: the index of the last produced sample, always in
    /// `[0, sample_rate)`.
    pub closed spec fn spec_phase_index(self) -> u32 {
        self.phase_index
    }

    /// Well-formedness: a positive sample rate and frequency, and a phase
    /// index inside its modulus.
    pub closed spec fn wf(self) -> bool {
        &&& self.sample_rate >= 1
        &&& self.frequency_mhz >= 1
        &&& self.phase_index < self.sample_rate
    }

    /// Creates an oscillator with its phase clock at zero. A zero sample rate
    /// is a configuration error and is rejected, never coerced. A zero
    /// frequency is left undefined by the synthesizer (its harmonic series
    /// would never truncate) and is excluded outright.
    pub fn new(waveform: Waveform, frequency_mhz: u64, sample_rate: u32) -> (result: Result<
        Oscillator,
        ConfigError,
    >)
        requires
            frequency_mhz >= 1,
        ensures
            sample_rate >= 1 ==> (result matches Ok(osc) && osc.wf() && osc.spec_waveform()
                == waveform && osc.spec_frequency_mhz() == frequency_mhz && osc.spec_sample_rate()
                == sample_rate && osc.spec_phase_index() == 0),
            sample_rate == 0 ==> result == Err::<Oscillator, ConfigError>(
                ConfigError::InvalidSampleRate,
            ),
    {
        if sample_rate == 0 {
            return Err(ConfigError::InvalidSampleRate);
        }
        Ok(Oscillator { waveform, frequency_mhz, sample_rate, phase_index: 0 })
    }

    /// Selects the waveform, effective from the next sample on. Switching
    /// mid-cycle may put a discontinuity in the output (an audible click);
    /// that is accepted behavior, not masked.
    pub fn set_waveform(&mut self, waveform: Waveform)
        ensures
            final(self).spec_waveform() == waveform,
            final(self).spec_frequency_mhz() == old(self).spec_frequency_mhz(),
            final(self).spec_sample_rate() == old(self).spec_sample_rate(),
            final(self).spec_phase_index() == old(self).spec_phase_index(),
            old(self).wf() ==> final(self).wf(),
    {
        self.waveform = waveform;
    }

    /// Selects the fundamental frequency in millihertz, effective from the
    /// next sample on; the same mid-cycle discontinuity caveat as for
    /// [`Oscillator::set_waveform`] applies.
    pub fn set_frequency(&mut self, frequency_mhz: u64)
        requires
            frequency_mhz >= 1,
        ensures
            final(self).spec_frequency_mhz() == frequency_mhz,
            final(self).spec_waveform() == old(self).spec_waveform(),
            final(self).spec_sample_rate() == old(self).spec_sample_rate(),
            final(self).spec_phase_index() == old(self).spec_phase_index(),
            old(self).wf() ==> final(self).wf(),
    {
        self.frequency_mhz = frequency_mhz;
    }

    /// Advances the phase clock one step, wrapping modulo the sample rate,
    /// and returns the exact harmonic series of the sample at the new phase.
    /// Never fails; each call yields exactly one new sample description.
    pub fn next_sample(&mut self) -> (terms: SampleTerms)
        requires
            old(self).wf(),
        ensures
            final(self).wf(),
            final(self).spec_waveform() == old(self).spec_waveform(),
            final(self).spec_frequency_mhz() == old(self).spec_frequency_mhz(),
            final(self).spec_sample_rate() == old(self).spec_sample_rate(),
            final(self).spec_phase_index() == (old(self).spec_phase_index() + 1) % (old(
                self,
            ).spec_sample_rate() as int),
            final(self).spec_phase_index() == phase_after(
                old(self).spec_phase_index(),
                1,
                old(self).spec_sample_rate(),
            ),
            final(self).spec_phase_index() < final(self).spec_sample_rate(),
            terms.phase_index == final(self).spec_phase_index(),
            terms.sample_rate == old(self).spec_sample_rate(),
            terms.frequency_mhz == old(self).spec_frequency_mhz(),
            terms.gain_exponent == spec_gain_exponent(old(self).spec_waveform()),
            terms.harmonics@ == spec_harmonics(
                old(self).spec_waveform(),
                old(self).spec_frequency_mhz(),
                old(self).spec_sample_rate(),
            ),
    {
        proof {
            reveal_with_fuel(phase_after, 2);
        }
        self.phase_index = (self.phase_index + 1) % self.sample_rate;
        SampleTerms {
            phase_index: self.phase_index,
            sample_rate: self.sample_rate,
            frequency_mhz: self.frequency_mhz,
            gain_exponent: gain_exponent(self.waveform),
            harmonics: harmonics(self.waveform, self.frequency_mhz, self.sample_rate),
        }
    }
}

} // verus!
