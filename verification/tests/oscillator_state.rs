//! Oscillator state: phase advancement, wrapping, and the two mutators.

use synrs::oscillator::Oscillator;
use synrs::waveform::Waveform;
use synrs::ConfigError;

#[test]
fn rejects_zero_sample_rate() {
    assert!(matches!(
        Oscillator::new(Waveform::Sine, 440_000, 0),
        Err(ConfigError::InvalidSampleRate)
    ));
}

#[test]
fn phase_wraps_at_the_sample_rate() {
    let mut osc = Oscillator::new(Waveform::Sine, 1_000, 4).unwrap();
    let phases: Vec<u32> = (0..6).map(|_| osc.next_sample().phase_index).collect();
    assert_eq!(phases, vec![1, 2, 3, 0, 1, 2]);
}

#[test]
fn set_waveform_takes_effect_on_the_next_sample() {
    let mut osc = Oscillator::new(Waveform::Sine, 440_000, 48_000).unwrap();
    let before = osc.next_sample();
    assert_eq!(before.harmonics, vec![1]);
    osc.set_waveform(Waveform::Square);
    let after = osc.next_sample();
    // The phase clock keeps running; only the harmonic content changes.
    assert_eq!(after.phase_index, before.phase_index + 1);
    let odd: Vec<u64> = (1..=54).filter(|k| k % 2 == 1).collect();
    assert_eq!(after.harmonics, odd);
}

#[test]
fn set_frequency_takes_effect_on_the_next_sample() {
    let mut osc = Oscillator::new(Waveform::Square, 440_000, 48_000).unwrap();
    let before = osc.next_sample();
    assert_eq!(before.harmonics.len(), 27);
    osc.set_frequency(880_000);
    let after = osc.next_sample();
    assert_eq!(after.phase_index, before.phase_index + 1);
    assert_eq!(after.frequency_mhz, 880_000);
    // 880 Hz at 48 kHz: odd multiples up to floor(24000 / 880) = 27.
    let odd: Vec<u64> = (1..=27).filter(|k| k % 2 == 1).collect();
    assert_eq!(after.harmonics, odd);
}

#[test]
fn fractional_frequencies_are_exact_in_millihertz() {
    // 261.63 Hz (middle C) is representable exactly as 261630 millihertz.
    let mut osc = Oscillator::new(Waveform::Saw, 261_630, 48_000).unwrap();
    let terms = osc.next_sample();
    // Multiples up to floor(24000 / 261.63) = 91 survive.
    assert_eq!(terms.harmonics.last(), Some(&91));
    assert_eq!(terms.harmonics.len(), 91);
}
