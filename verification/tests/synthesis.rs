//! Synthesis behavior: the harmonic series an oscillator reports, and the
//! waveform values it evaluates to.

use synrs::oscillator::{Oscillator, SampleTerms};
use synrs::waveform::Waveform;

/// Evaluates one sample description: the floating-point step the library
/// leaves to its caller.
fn evaluate(terms: &SampleTerms) -> f64 {
    let two_pi = 2.0_f64 * std::f64::consts::PI;
    let freq_hz = terms.frequency_mhz as f64 / 1000.0;
    let mut output = 0.0_f64;
    for &k in terms.harmonics.iter() {
        let gain = 1.0 / (k as f64).powf(terms.gain_exponent as f64);
        let angle =
            (terms.phase_index as f64) * (freq_hz * k as f64) * two_pi / (terms.sample_rate as f64);
        output += gain * angle.sin();
    }
    output
}

#[test]
fn sine_matches_closed_formula() {
    let mut osc = Oscillator::new(Waveform::Sine, 440_000, 48_000).unwrap();
    let two_pi = 2.0_f64 * std::f64::consts::PI;
    for p in 1..=10u32 {
        let terms = osc.next_sample();
        assert_eq!(terms.phase_index, p);
        assert_eq!(terms.harmonics, vec![1]);
        assert_eq!(terms.gain_exponent, 1);
        let expected = ((p as f64) * 440.0 * two_pi / 48_000.0).sin();
        assert!((evaluate(&terms) - expected).abs() < 1e-12);
    }
}

#[test]
fn above_nyquist_is_silence() {
    for waveform in [Waveform::Square, Waveform::Saw, Waveform::Triangle] {
        let mut osc = Oscillator::new(waveform, 30_000_000, 48_000).unwrap();
        for _ in 0..5 {
            let terms = osc.next_sample();
            assert!(terms.harmonics.is_empty());
            assert_eq!(evaluate(&terms), 0.0);
        }
    }
}

#[test]
fn nyquist_boundary_keeps_the_fundamental() {
    // At exactly half the sample rate the fundamental does not yet exceed
    // Nyquist, so one term survives; one millihertz above, none does.
    let mut at = Oscillator::new(Waveform::Square, 24_000_000, 48_000).unwrap();
    assert_eq!(at.next_sample().harmonics, vec![1]);
    let mut above = Oscillator::new(Waveform::Square, 24_000_001, 48_000).unwrap();
    assert!(above.next_sample().harmonics.is_empty());
}

#[test]
fn band_limited_harmonic_content() {
    // 440 Hz at 48 kHz: multiples up to floor(24000 / 440) = 54 survive.
    let odd: Vec<u64> = (1..=54).filter(|k| k % 2 == 1).collect();
    let all: Vec<u64> = (1..=54).collect();

    let mut square = Oscillator::new(Waveform::Square, 440_000, 48_000).unwrap();
    let terms = square.next_sample();
    assert_eq!(terms.harmonics, odd);
    assert_eq!(terms.gain_exponent, 1);

    let mut saw = Oscillator::new(Waveform::Saw, 440_000, 48_000).unwrap();
    let terms = saw.next_sample();
    assert_eq!(terms.harmonics, all);
    assert_eq!(terms.gain_exponent, 1);

    let mut triangle = Oscillator::new(Waveform::Triangle, 440_000, 48_000).unwrap();
    let terms = triangle.next_sample();
    assert_eq!(terms.harmonics, odd);
    assert_eq!(terms.gain_exponent, 2);
}

#[test]
fn output_is_periodic_in_the_waveform_period() {
    // 480 Hz at 48 kHz has a period of exactly 100 samples.
    for waveform in [Waveform::Sine, Waveform::Square, Waveform::Saw, Waveform::Triangle] {
        let mut osc = Oscillator::new(waveform, 480_000, 48_000).unwrap();
        let first: Vec<f64> = (0..5).map(|_| evaluate(&osc.next_sample())).collect();
        for _ in 5..100 {
            osc.next_sample();
        }
        let second: Vec<f64> = (0..5).map(|_| evaluate(&osc.next_sample())).collect();
        for (a, b) in first.iter().zip(second.iter()) {
            assert!((a - b).abs() < 1e-9, "{a} vs {b}");
        }
    }
}

#[test]
fn full_cycle_wraparound_repeats_the_first_sample() {
    // 48000 further calls return the phase clock to the same index, so the
    // 48000th sample description equals the 0th one exactly.
    let mut osc = Oscillator::new(Waveform::Sine, 440_000, 48_000).unwrap();
    let first = osc.next_sample();
    for _ in 0..47_999 {
        osc.next_sample();
    }
    let wrapped = osc.next_sample();
    assert_eq!(first, wrapped);
    assert_eq!(evaluate(&first), evaluate(&wrapped));
}
