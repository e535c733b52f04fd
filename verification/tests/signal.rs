use camouflage::signal::{mix_sample, sample_to_i16, samples_for_duration, SignalGenerator, WAVE_SCALE};
use camouflage::SignalConfig;

fn default_config() -> SignalConfig {
    SignalConfig::default()
}

#[test]
fn test_signal_generation() {
    let config = default_config();
    let mut generator = SignalGenerator::new(config);

    let mut buffer = vec![0i64; 1000];
    generator.generate_buffer(&mut buffer);

    // Verify samples are within expected range
    for sample in &buffer {
        assert!(sample.abs() <= WAVE_SCALE as i64);
    }
}

#[test]
fn test_multi_tone_generation() {
    let config = SignalConfig { num_tones: 5, ..default_config() };
    let mut generator = SignalGenerator::new(config);

    let mut buffer = vec![0i64; 1000];
    generator.generate_buffer(&mut buffer);

    // Verify samples are within expected range
    for sample in &buffer {
        assert!(sample.abs() <= WAVE_SCALE as i64);
    }
}

#[test]
fn samples_stay_within_configured_amplitude() {
    let configs = [
        default_config(),
        SignalConfig { num_tones: 1, amplitude_thousandths: 1000, ..default_config() },
        SignalConfig { num_tones: 2, spread_millihertz: 600_000, ..default_config() },
        SignalConfig { num_tones: 7, amplitude_thousandths: 333, ..default_config() },
        SignalConfig {
            frequency_millihertz: 21_000_000,
            sample_rate: 44_100,
            amplitude_thousandths: 400,
            num_tones: 4,
            spread_millihertz: 250_000,
        },
    ];
    for config in configs {
        let bound = (config.amplitude_thousandths as i64) * (WAVE_SCALE as i64);
        let mut generator = SignalGenerator::new(config);
        for _ in 0..5000 {
            let sample = generator.next_sample();
            assert!(-bound <= 1000 * sample && 1000 * sample <= bound);
        }
    }
}

#[test]
fn filling_a_buffer_equals_repeated_single_samples() {
    let config = default_config();
    let mut by_buffer = SignalGenerator::new(config);
    let mut one_by_one = SignalGenerator::new(config);

    let mut buffer = vec![0i64; 512];
    by_buffer.generate_buffer(&mut buffer);

    for slot in buffer.iter() {
        assert_eq!(*slot, one_by_one.next_sample());
    }
    // Both generators also end in the same state.
    assert_eq!(by_buffer.next_sample(), one_by_one.next_sample());
}

#[test]
fn single_tone_periodicity_at_one_khz() {
    // 1000 Hz at 48 kHz: exactly 48 samples per cycle.
    let config = SignalConfig {
        frequency_millihertz: 1_000_000,
        sample_rate: 48_000,
        amplitude_thousandths: 1000,
        num_tones: 1,
        spread_millihertz: 0,
    };
    let mut generator = SignalGenerator::new(config);
    let mut samples = Vec::new();
    for _ in 0..97 {
        samples.push(generator.next_sample());
    }
    // Sample 0 is exactly zero, and one full cycle later the phase has
    // wrapped exactly: sample 48 equals sample 0, bit for bit.
    assert_eq!(samples[0], 0);
    assert_eq!(samples[48], samples[0]);
    assert_eq!(samples[96], samples[0]);
    for offset in 0..48 {
        assert_eq!(samples[offset + 48], samples[offset]);
    }
    // A quarter cycle in, the waveform peaks at full scale.
    assert_eq!(samples[12], WAVE_SCALE as i64);
    assert_eq!(samples[36], -(WAVE_SCALE as i64));
}

#[test]
fn reconfigure_resets_phases_to_match_fresh_generator() {
    let first = default_config();
    let second = SignalConfig { num_tones: 5, frequency_millihertz: 22_000_000, ..default_config() };

    let mut reconfigured = SignalGenerator::new(first);
    for _ in 0..1234 {
        reconfigured.next_sample();
    }
    reconfigured.update_config(second);

    let mut fresh = SignalGenerator::new(second);
    for _ in 0..500 {
        assert_eq!(reconfigured.next_sample(), fresh.next_sample());
    }
}

#[test]
fn fill_frames_duplicates_each_sample_across_channels() {
    let config = default_config();
    let mut frames = SignalGenerator::new(config);
    let mut mono = SignalGenerator::new(config);

    let mut interleaved = vec![0i64; 10];
    frames.fill_frames(&mut interleaved, 2);

    let mut expected = vec![0i64; 5];
    mono.generate_buffer(&mut expected);

    for frame in 0..5 {
        assert_eq!(interleaved[2 * frame], expected[frame]);
        assert_eq!(interleaved[2 * frame + 1], expected[frame]);
    }
}

#[test]
fn fill_frames_handles_a_partial_last_frame() {
    let config = default_config();
    let mut frames = SignalGenerator::new(config);
    let mut mono = SignalGenerator::new(config);

    let mut interleaved = vec![0i64; 7];
    frames.fill_frames(&mut interleaved, 2);

    let mut expected = vec![0i64; 4];
    mono.generate_buffer(&mut expected);

    for t in 0..7 {
        assert_eq!(interleaved[t], expected[t / 2]);
    }
    // Both generators advanced by four samples.
    assert_eq!(frames.next_sample(), mono.next_sample());
}

#[test]
fn sample_to_i16_is_exact_and_saturates_at_the_top() {
    assert_eq!(sample_to_i16(0), 0);
    assert_eq!(sample_to_i16(12345), 12345);
    assert_eq!(sample_to_i16(-12345), -12345);
    assert_eq!(sample_to_i16(32767), 32767);
    assert_eq!(sample_to_i16(32768), 32767);
    assert_eq!(sample_to_i16(-32768), -32768);
}

#[test]
fn mix_sample_weighs_original_against_ultrasonic() {
    // Full weight on the original.
    assert_eq!(mix_sample(1000, 400, 0), 1000);
    // Full weight on the ultrasonic signal.
    assert_eq!(mix_sample(1000, 400, 1000), 400);
    // Even split: (1000 * 500 + 400 * 500) / 1000 = 700.
    assert_eq!(mix_sample(1000, 400, 500), 700);
    // Rounding is toward zero on either sign.
    assert_eq!(mix_sample(1, 0, 500), 0);
    assert_eq!(mix_sample(-1, 0, 500), 0);
    // Extremes stay within 16-bit PCM.
    assert_eq!(mix_sample(-32768, -32768, 500), -32768);
    assert_eq!(mix_sample(32767, 32767, 500), 32767);
}

#[test]
fn samples_for_duration_is_rate_times_seconds() {
    assert_eq!(samples_for_duration(48_000, 3_000), 144_000);
    assert_eq!(samples_for_duration(44_100, 1_000), 44_100);
    assert_eq!(samples_for_duration(48_000, 1), 48);
    assert_eq!(samples_for_duration(48_000, 0), 0);
}
