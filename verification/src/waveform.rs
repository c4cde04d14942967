//! Waveform shapes and the harmonic bookkeeping of band-limited synthesis.
//!
//! A naive square, saw or triangle wave has energy at infinitely many
//! harmonics, and sampling it aliases. The synthesizer instead sums sinusoidal
//! harmonics `k = 1, 1 + step, 1 + 2·step, ...` and truncates the series at
//! the Nyquist frequency (half the sample rate), so the highest partial stays
//! representable by construction. Which multiples survive the truncation is
//! exact integer arithmetic once frequencies are carried in millihertz, and
//! that selection is what this module computes and verifies.

use vstd::prelude::*;

verus! {

/// Frequencies are carried as integer millihertz so that the Nyquist
/// comparison `frequency · k <= sample_rate / 2` is exact: 440 Hz is 440_000.
pub const MILLIHERTZ_PER_HERTZ: u64 = 1000;

/// The periodic shape an oscillator synthesizes.
#[derive(Clone, Copy, PartialEq, Eq, Structural, Debug)]
pub enum Waveform {
    Sine,
    Square,
    Saw,
    Triangle,
}

/// Step between successive harmonic multiples: a saw wave sums every
/// harmonic, square and triangle waves only the odd ones.
pub open spec fn spec_harmonic_step(waveform: Waveform) -> u64 {
    match waveform {
        Waveform::Saw => 1u64,
        _ => 2u64,
    }
}

/// Exponent of the per-harmonic gain `1 / k^e`: a triangle wave rolls off
/// with the square of the harmonic index, the other shapes linearly.
pub open spec fn spec_gain_exponent(waveform: Waveform) -> u32 {
    match waveform {
        Waveform::Triangle => 2u32,
        _ => 1u32,
    }
}

/// A harmonic multiple is kept only while `frequency · multiple` stays at or
/// below the Nyquist frequency, i.e. `2 · f_mhz · k <= 1000 · sample_rate`.
pub open spec fn below_nyquist(frequency_mhz: u64, multiple: u64, sample_rate: u32) -> bool {
    2 * frequency_mhz * multiple <= MILLIHERTZ_PER_HERTZ * sample_rate
}

/// The harmonic multiples `start, start + step, ...` that survive the Nyquist
/// truncation, in increasing order.
pub open spec fn harmonics_from(
    frequency_mhz: u64,
    sample_rate: u32,
    step: u64,
    start: u64,
) -> Seq<u64>
    decreases (if below_nyquist(frequency_mhz, start, sample_rate) {
        MILLIHERTZ_PER_HERTZ * sample_rate + 1 - 2 * frequency_mhz * start
    } else {
        0
    })
        when frequency_mhz >= 1 && 1 <= step <= 2
        via harmonics_from_decreases
{
    if below_nyquist(frequency_mhz, start, sample_rate) {
        seq![start] + harmonics_from(frequency_mhz, sample_rate, step, (start + step) as u64)
    } else {
        Seq::empty()
    }
}

#[via_fn]
proof fn harmonics_from_decreases(frequency_mhz: u64, sample_rate: u32, step: u64, start: u64) {
    if frequency_mhz >= 1 && 1 <= step <= 2 && below_nyquist(frequency_mhz, start, sample_rate) {
        assert(2 * start <= 2 * frequency_mhz * start) by (nonlinear_arith)
            requires
                frequency_mhz >= 1,
                start >= 0,
        ;
        assert(2 * frequency_mhz * (start + step) == 2 * frequency_mhz * start + 2 * frequency_mhz
            * step) by (nonlinear_arith);
        assert(2 * frequency_mhz * step >= 2) by (nonlinear_arith)
            requires
                frequency_mhz >= 1,
                step >= 1,
        ;
    }
}

/// Every harmonic multiple summed for one sample: a sine is the bare
/// fundamental (a single term, never truncated); the other shapes are the
/// band-limited series starting at the fundamental.
pub open spec fn spec_harmonics(waveform: Waveform, frequency_mhz: u64, sample_rate: u32) -> Seq<
    u64,
> {
    match waveform {
        Waveform::Sine => seq![1u64],
        _ => harmonics_from(frequency_mhz, sample_rate, spec_harmonic_step(waveform), 1),
    }
}

/// A frequency at or above Nyquist leaves no harmonic below the cutoff, so
/// the band-limited shapes sum zero terms and the sample evaluates to zero.
/// (Silence on out-of-band requests is accepted behavior, not an error.)
pub proof fn lemma_at_or_above_nyquist_silence(
    waveform: Waveform,
    frequency_mhz: u64,
    sample_rate: u32,
)
    requires
        frequency_mhz >= 1,
        2 * frequency_mhz > MILLIHERTZ_PER_HERTZ * sample_rate,
        waveform != Waveform::Sine,
    ensures
        spec_harmonics(waveform, frequency_mhz, sample_rate) == Seq::<u64>::empty(),
{
    assert(!below_nyquist(frequency_mhz, 1, sample_rate));
}

fn harmonic_step(waveform: Waveform) -> (step: u64)
    ensures
        step == spec_harmonic_step(waveform),
{
    match waveform {
        Waveform::Saw => 1,
        _ => 2,
    }
}

/// Computes [`spec_gain_exponent`].
pub fn gain_exponent(waveform: Waveform) -> (e: u32)
    ensures
        e == spec_gain_exponent(waveform),
{
    match waveform {
        Waveform::Triangle => 2,
        _ => 1,
    }
}

/// Decides [`below_nyquist`] exactly, in 128-bit arithmetic.
fn multiple_below_nyquist(frequency_mhz: u64, multiple: u64, sample_rate: u32) -> (r: bool)
    requires
        multiple < 0x1_0000_0000_0000,
    ensures
        r == below_nyquist(frequency_mhz, multiple, sample_rate),
{
    let f = frequency_mhz as u128;
    let m = multiple as u128;
    proof {
        assert((2 * f) * m <= 0x2_0000_0000_0000_0000u128 * 0x1_0000_0000_0000u128)
            by (nonlinear_arith)
            requires
                2 * f <= 0x2_0000_0000_0000_0000u128,
                m <= 0x1_0000_0000_0000u128,
        ;
    }
    let product: u128 = 2 * f * m;
    let limit: u128 = 1000 * (sample_rate as u128);
    product <= limit
}

/// Computes [`spec_harmonics`]: the multiples `k` with `k = 1 (mod step)` and
/// `frequency · k` at or below Nyquist, in increasing order.
pub fn harmonics(waveform: Waveform, frequency_mhz: u64, sample_rate: u32) -> (result: Vec<u64>)
    requires
        frequency_mhz >= 1,
    ensures
        result@ == spec_harmonics(waveform, frequency_mhz, sample_rate),
{
    let mut result: Vec<u64> = Vec::new();
    if matches!(waveform, Waveform::Sine) {
        result.push(1);
        assert(result@ =~= seq![1u64]);
        return result;
    }
    let step: u64 = harmonic_step(waveform);
    let mut k: u64 = 1;
    while multiple_below_nyquist(frequency_mhz, k, sample_rate)
        invariant
            frequency_mhz >= 1,
            1 <= step <= 2,
            step == spec_harmonic_step(waveform),
            waveform != Waveform::Sine,
            1 <= k <= 500 * (sample_rate as int) + 2,
            result@ + harmonics_from(frequency_mhz, sample_rate, step, k) == harmonics_from(
                frequency_mhz,
                sample_rate,
                step,
                1,
            ),
        decreases (if below_nyquist(frequency_mhz, k, sample_rate) {
            MILLIHERTZ_PER_HERTZ * sample_rate + 1 - 2 * frequency_mhz * k
        } else {
            0
        }),
    {
        proof {
            assert(2 * k <= 2 * frequency_mhz * k) by (nonlinear_arith)
                requires
                    frequency_mhz >= 1,
                    k >= 0,
            ;
            assert(2 * frequency_mhz * (k + step) == 2 * frequency_mhz * k + 2 * frequency_mhz
                * step) by (nonlinear_arith);
            assert(2 * frequency_mhz * step >= 2) by (nonlinear_arith)
                requires
                    frequency_mhz >= 1,
                    step >= 1,
            ;
            assert(harmonics_from(frequency_mhz, sample_rate, step, k) == seq![k]
                + harmonics_from(frequency_mhz, sample_rate, step, (k + step) as u64));
        }
        let ghost pre = result@;
        result.push(k);
        proof {
            assert(result@ + harmonics_from(frequency_mhz, sample_rate, step, (k + step) as u64)
                =~= pre + harmonics_from(frequency_mhz, sample_rate, step, k));
        }
        k = k + step;
    }
    proof {
        assert(harmonics_from(frequency_mhz, sample_rate, step, k) =~= Seq::<u64>::empty());
        assert(result@ =~= result@ + Seq::<u64>::empty());
    }
    result
}

} // verus!
