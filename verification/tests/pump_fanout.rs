//! The stream pump: monophonic fan-out and buffer filling.

use synrs::channel::SampleChannel;
use synrs::pump::StreamPump;
use synrs::ConfigError;

#[test]
fn zero_channels_is_rejected() {
    assert!(matches!(StreamPump::new(0), Err(ConfigError::InvalidChannelCount)));
}

#[test]
fn fan_out_replicates_one_value_across_all_slots() {
    let pump = StreamPump::new(3).unwrap();
    assert_eq!(pump.channels(), 3);
    // The value is already in the hardware's native format here; the pump
    // only places it.
    assert_eq!(pump.fan_out(0.5_f32), vec![0.5, 0.5, 0.5]);
    assert_eq!(pump.fan_out(16_384_i16), vec![16_384, 16_384, 16_384]);
}

#[test]
fn fill_buffer_pops_one_sample_per_frame() {
    let pump = StreamPump::new(2).unwrap();
    let mut chan = SampleChannel::<i32>::new(8).unwrap();
    for v in [10, 20, 30, 40] {
        chan.push(v).unwrap();
    }
    let mut buffer = vec![0_i32; 8];
    let filled = pump.fill_buffer(&mut buffer, &mut chan);
    assert_eq!(filled, 4);
    assert_eq!(buffer, vec![10, 10, 20, 20, 30, 30, 40, 40]);
    assert_eq!(chan.len(), 0);
}

#[test]
fn fill_buffer_leaves_unfilled_frames_untouched_when_starved() {
    let pump = StreamPump::new(2).unwrap();
    let mut chan = SampleChannel::<i32>::new(8).unwrap();
    for v in [10, 20, 30] {
        chan.push(v).unwrap();
    }
    let mut buffer = vec![-1_i32; 8];
    let filled = pump.fill_buffer(&mut buffer, &mut chan);
    assert_eq!(filled, 3);
    assert_eq!(buffer, vec![10, 10, 20, 20, 30, 30, -1, -1]);
    assert_eq!(chan.len(), 0);
}

#[test]
fn fill_buffer_consumes_only_what_fits() {
    let pump = StreamPump::new(4).unwrap();
    let mut chan = SampleChannel::<u8>::new(8).unwrap();
    for v in [1, 2, 3] {
        chan.push(v).unwrap();
    }
    let mut buffer = vec![0_u8; 8];
    let filled = pump.fill_buffer(&mut buffer, &mut chan);
    assert_eq!(filled, 2);
    assert_eq!(buffer, vec![1, 1, 1, 1, 2, 2, 2, 2]);
    // The third sample stays queued for the next callback.
    assert_eq!(chan.pop(), Ok(3));
}
