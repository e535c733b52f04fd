use camouflage::config::MAX_TONES;
use camouflage::{check_config, validate_config, ConfigError, SignalConfig};

#[test]
fn default_configuration() {
    let c = SignalConfig::default();
    assert_eq!(c.frequency_millihertz, 23_000_000);
    assert_eq!(c.sample_rate, 48_000);
    assert_eq!(c.amplitude_thousandths, 250);
    assert_eq!(c.num_tones, 3);
    assert_eq!(c.spread_millihertz, 300_000);
    assert!(check_config(&c).is_ok());
}

#[test]
fn three_tones_sit_at_exactly_the_expected_frequencies() {
    // tone_count = 3, base 23 kHz, spacing 300 Hz: tones at exactly
    // 22700, 23000 and 23300 Hz.
    let c = SignalConfig::default();
    assert_eq!(c.tone_frequency_microhertz(0), 22_700_000_000);
    assert_eq!(c.tone_frequency_microhertz(1), 23_000_000_000);
    assert_eq!(c.tone_frequency_microhertz(2), 23_300_000_000);
}

#[test]
fn even_tone_counts_straddle_the_base_frequency() {
    let c = SignalConfig { num_tones: 2, spread_millihertz: 300_000, ..SignalConfig::default() };
    assert_eq!(c.tone_frequency_microhertz(0), 22_850_000_000);
    assert_eq!(c.tone_frequency_microhertz(1), 23_150_000_000);
}

#[test]
fn five_tone_band_is_accepted_unmodified() {
    // min_tone = 22000 - 2*400 = 21200, max_tone = 22000 + 2*400 = 22800,
    // both inside [20000, 24000]: accepted with nothing changed.
    let c = SignalConfig {
        frequency_millihertz: 22_000_000,
        sample_rate: 48_000,
        amplitude_thousandths: 250,
        num_tones: 5,
        spread_millihertz: 400_000,
    };
    let v = validate_config(&c).unwrap();
    assert_eq!(v.config, c);
    assert!(!v.frequency_adjusted);
    assert!(!v.amplitude_warning);
    assert!(!v.aliasing_warning);
}

#[test]
fn audible_base_frequency_is_raised_into_the_ultrasonic_band() {
    let c = SignalConfig { frequency_millihertz: 19_000_000, num_tones: 1, ..SignalConfig::default() };
    let v = validate_config(&c).unwrap();
    assert!(v.frequency_adjusted);
    assert!(v.config.frequency_millihertz >= 20_000_000);
    assert_eq!(v.config.frequency_millihertz, 20_500_000);
    assert_eq!(v.config.num_tones, 1);
}

#[test]
fn high_amplitude_is_flagged_not_clamped() {
    let c = SignalConfig { amplitude_thousandths: 500, ..SignalConfig::default() };
    let v = validate_config(&c).unwrap();
    assert!(v.amplitude_warning);
    assert_eq!(v.config.amplitude_thousandths, 500);
}

#[test]
fn tones_near_nyquist_draw_an_aliasing_warning() {
    // Two tones 600 Hz apart around 23.5 kHz: the band check's upper edge
    // is 24100 Hz (> 24000), while the actual top tone at 23800 Hz is
    // still below the Nyquist limit, so the config is accepted with a
    // warning.
    let c = SignalConfig {
        frequency_millihertz: 23_500_000,
        sample_rate: 48_000,
        amplitude_thousandths: 250,
        num_tones: 2,
        spread_millihertz: 600_000,
    };
    let v = validate_config(&c).unwrap();
    assert!(v.aliasing_warning);
    assert!(!v.frequency_adjusted);
}

#[test]
fn zero_tone_count_is_rejected() {
    let c = SignalConfig { num_tones: 0, ..SignalConfig::default() };
    assert_eq!(validate_config(&c).unwrap_err(), ConfigError::ZeroToneCount);
    assert_eq!(check_config(&c).unwrap_err(), ConfigError::ZeroToneCount);
}

#[test]
fn zero_sample_rate_is_rejected() {
    let c = SignalConfig { sample_rate: 0, ..SignalConfig::default() };
    assert_eq!(validate_config(&c).unwrap_err(), ConfigError::ZeroSampleRate);
    assert_eq!(check_config(&c).unwrap_err(), ConfigError::ZeroSampleRate);
}

#[test]
fn oversized_tone_count_is_rejected() {
    let c = SignalConfig { num_tones: MAX_TONES + 1, ..SignalConfig::default() };
    assert_eq!(validate_config(&c).unwrap_err(), ConfigError::TooManyTones);
}

#[test]
fn amplitude_above_full_scale_is_rejected() {
    let c = SignalConfig { amplitude_thousandths: 1500, ..SignalConfig::default() };
    assert_eq!(validate_config(&c).unwrap_err(), ConfigError::AmplitudeOutOfRange);
}

#[test]
fn tone_above_nyquist_is_rejected() {
    // A 30 kHz tone cannot be played at a 48 kHz sample rate.
    let c = SignalConfig { frequency_millihertz: 30_000_000, num_tones: 1, ..SignalConfig::default() };
    assert_eq!(validate_config(&c).unwrap_err(), ConfigError::ToneOutOfRange);
    assert_eq!(check_config(&c).unwrap_err(), ConfigError::ToneOutOfRange);
}

#[test]
fn tone_below_zero_is_rejected_by_check() {
    // A fan wider than twice the base frequency would need a negative
    // tone; the raw check rejects it (the band check would instead raise
    // the base).
    let c = SignalConfig {
        frequency_millihertz: 1_000_000,
        sample_rate: 48_000,
        amplitude_thousandths: 250,
        num_tones: 3,
        spread_millihertz: 5_000_000,
    };
    assert_eq!(check_config(&c).unwrap_err(), ConfigError::ToneOutOfRange);
}
