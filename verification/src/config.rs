//! Signal configuration: tone layout, units, and well-formedness.
//!
//! Frequencies are carried in millihertz and amplitudes in thousandths,
//! so that every quantity the oscillator bank works with is an exact
//! integer and phase accumulators advance by exact rational steps.

use vstd::prelude::*;

verus! {

/// Upper bound on the number of simultaneous tones. Sample production is
/// O(tone count) inside a real-time audio callback, and the bound keeps
/// all intermediate arithmetic comfortably inside machine integers.
pub const MAX_TONES: usize = 4096;

/// Configuration for ultrasonic signal generation.
#[derive(Clone, Copy, Debug, PartialEq, Eq, Structural)]
pub struct SignalConfig {
    /// Base (center) frequency in millihertz.
    pub frequency_millihertz: u64,
    /// Output sample rate in hertz; the audio device is authoritative.
    pub sample_rate: u32,
    /// Overall gain in thousandths of full scale, at most 1000.
    pub amplitude_thousandths: u32,
    /// Number of simultaneous oscillators.
    pub num_tones: usize,
    /// Frequency offset between adjacent tones, in millihertz.
    pub spread_millihertz: u64,
}

impl SignalConfig {
    /// Common denominator of all phase accumulators: a phase is a fraction
    /// `numerator / phase_denominator()` of a full cycle. The factor 2000
    /// makes every per-sample step `2 * frequency_millihertz + k * spread`
    /// an exact integer, including the half-spacing offsets that arise
    /// with an even tone count.
    pub open spec fn phase_denominator(self) -> int {
        2000 * self.sample_rate
    }

    /// Per-sample phase advance of tone `i`, in units of
    /// `1 / phase_denominator()` cycles. Tones are laid out symmetrically
    /// around the base frequency: tone `i` is offset by
    /// `(i - (num_tones - 1) / 2) * spread` hertz, written here without
    /// fractions as `(2i - (num_tones - 1)) * spread` half-steps.
    pub open spec fn tone_step(self, i: int) -> int {
        2 * self.frequency_millihertz + (2 * i - (self.num_tones - 1)) * self.spread_millihertz
    }

    /// Effective frequency of tone `i` in microhertz (exact: a tone offset
    /// can sit half a millihertz off the grid when the tone count is even).
    pub open spec fn spec_tone_frequency_microhertz(self, i: int) -> int {
        500 * self.tone_step(i)
    }

    /// Well-formedness required by the oscillator bank: at least one tone,
    /// a nonzero sample rate, gain at most full scale, and every tone
    /// frequency nonnegative and at most the Nyquist limit (half the
    /// sample rate), so each phase step is at most half a cycle.
    pub open spec fn valid(self) -> bool {
        &&& 1 <= self.num_tones <= MAX_TONES
        &&& 1 <= self.sample_rate
        &&& self.amplitude_thousandths <= 1000
        &&& forall|i: int|
            0 <= i < self.num_tones ==> 0 <= #[trigger] self.tone_step(i) <= 1000 * self.sample_rate
    }

    /// Half the width of the tone fan in millihertz, as the band check
    /// figures it: half the tone count, rounded down, times the spacing.
    pub open spec fn spec_half_span(self) -> int {
        (self.num_tones / 2) * self.spread_millihertz
    }

    /// Lower edge of the tone fan used by the band check, in millihertz.
    pub open spec fn spec_min_tone(self) -> int {
        self.frequency_millihertz - self.spec_half_span()
    }

    /// Upper edge of the tone fan used by the band check, in millihertz.
    pub open spec fn spec_max_tone(self) -> int {
        self.frequency_millihertz + self.spec_half_span()
    }

    /// Base frequency after the band check has, if needed, raised it so
    /// that the whole fan sits above the audible range.
    pub open spec fn spec_adjusted_frequency(self) -> int {
        if self.spec_min_tone() < ULTRASONIC_FLOOR_MILLIHERTZ {
            ULTRASONIC_FLOOR_MILLIHERTZ + self.spec_half_span() + ADJUST_MARGIN_MILLIHERTZ
        } else {
            self.frequency_millihertz as int
        }
    }

    /// Computes the per-sample phase step of tone `i` exactly.
    pub fn tone_step_at(&self, i: usize) -> (step: u64)
        requires
            self.valid(),
            i < self.num_tones,
        ensures
            step == self.tone_step(i as int),
            step <= 1000 * self.sample_rate,
    {
        proof {
            assert(0 <= (self.num_tones - 1) * self.spread_millihertz) by (nonlinear_arith)
                requires self.num_tones >= 1;
            assert(self.tone_step(self.num_tones - 1) <= 1000 * self.sample_rate);
            assert(2 * self.frequency_millihertz <= 1000 * self.sample_rate);
        }
        let two_f: u64 = 2 * self.frequency_millihertz;
        let idx2: usize = 2 * i;
        let nm1: usize = self.num_tones - 1;
        if idx2 >= nm1 {
            let k: u64 = (idx2 - nm1) as u64;
            proof {
                assert(self.tone_step(i as int) == 2 * self.frequency_millihertz
                    + k * self.spread_millihertz);
                assert(0 <= k * self.spread_millihertz) by (nonlinear_arith);
                assert(self.tone_step(i as int) <= 1000 * self.sample_rate);
            }
            two_f + k * self.spread_millihertz
        } else {
            let k: u64 = (nm1 - idx2) as u64;
            proof {
                lemma_mul_flip(k as int, self.spread_millihertz as int);
                assert(self.tone_step(i as int) == 2 * self.frequency_millihertz
                    - k * self.spread_millihertz);
                assert(0 <= k * self.spread_millihertz) by (nonlinear_arith);
                assert(0 <= self.tone_step(i as int));
            }
            two_f - k * self.spread_millihertz
        }
    }

    /// Effective frequency of tone `i` in microhertz. With three tones at
    /// a 23 kHz base and 300 Hz spacing the tones sit at 22.7, 23.0 and
    /// 23.3 kHz.
    pub fn tone_frequency_microhertz(&self, i: usize) -> (freq: u64)
        requires
            self.valid(),
            i < self.num_tones,
        ensures
            freq == self.spec_tone_frequency_microhertz(i as int),
    {
        let step = self.tone_step_at(i);
        500 * step
    }
}

/// Frequencies below this (in millihertz) are considered audible; the
/// band check keeps every tone at or above it.
pub const ULTRASONIC_FLOOR_MILLIHERTZ: u64 = 20_000_000;

/// Tones above this (in millihertz) risk aliasing against a 48 kHz device.
pub const ALIAS_CEILING_MILLIHERTZ: u64 = 24_000_000;

/// Safety margin (in millihertz) added when the base frequency is raised.
pub const ADJUST_MARGIN_MILLIHERTZ: u64 = 500_000;

/// Amplitudes above this many thousandths risk audible harmonic
/// distortion and are flagged.
pub const AMPLITUDE_WARN_THOUSANDTHS: u32 = 400;

/// Why a configuration was rejected.
#[derive(Clone, Copy, Debug, PartialEq, Eq, Structural)]
pub enum ConfigError {
    /// A generator with no oscillators would silently produce silence.
    ZeroToneCount,
    /// More oscillators than the real-time callback budget allows.
    TooManyTones,
    /// A zero sample rate would make the phase step ill-defined.
    ZeroSampleRate,
    /// Gain above full scale.
    AmplitudeOutOfRange,
    /// Some tone would fall below zero or above the Nyquist limit.
    ToneOutOfRange,
}

/// Multiplying a negated factor negates the product.
proof fn lemma_mul_flip(a: int, s: int)
    by (nonlinear_arith)
    ensures
        (-a) * s == -(a * s),
{
}

/// The rule an invalid configuration breaks first, in the order the
/// checks run: tone count, sample rate, amplitude, tone range.
pub open spec fn config_error_for(c: SignalConfig) -> ConfigError {
    if c.num_tones == 0 {
        ConfigError::ZeroToneCount
    } else if c.num_tones > MAX_TONES {
        ConfigError::TooManyTones
    } else if c.sample_rate == 0 {
        ConfigError::ZeroSampleRate
    } else if c.amplitude_thousandths > 1000 {
        ConfigError::AmplitudeOutOfRange
    } else {
        ConfigError::ToneOutOfRange
    }
}

/// Every tone step lies between the extreme steps of the fan.
proof fn lemma_steps_in_range(c: SignalConfig)
    requires
        1 <= c.num_tones,
        (c.num_tones - 1) * c.spread_millihertz <= 2 * c.frequency_millihertz,
        2 * c.frequency_millihertz + (c.num_tones - 1) * c.spread_millihertz
            <= 1000 * c.sample_rate,
    ensures
        forall|i: int|
            0 <= i < c.num_tones ==> 0 <= #[trigger] c.tone_step(i) <= 1000 * c.sample_rate,
{
    assert forall|i: int|
        0 <= i < c.num_tones implies 0 <= #[trigger] c.tone_step(i) <= 1000 * c.sample_rate by {
        let nm1 = c.num_tones - 1;
        let s = c.spread_millihertz as int;
        let co = 2 * i - nm1;
        assert(co * s <= nm1 * s) by (nonlinear_arith)
            requires co <= nm1, 0 <= s;
        assert(-(nm1 * s) <= co * s) by (nonlinear_arith)
            requires -nm1 <= co, 0 <= s;
    }
}

/// Checks a configuration against [`SignalConfig::valid`], reporting the
/// first rule it breaks. `Ok` exactly on valid configurations.
pub fn check_config(c: &SignalConfig) -> (r: Result<(), ConfigError>)
    ensures
        r is Ok <==> c.valid(),
        !c.valid() ==> r == Result::<(), ConfigError>::Err(config_error_for(*c)),
{
    if c.num_tones == 0 {
        return Err(ConfigError::ZeroToneCount);
    }
    if c.num_tones > MAX_TONES {
        return Err(ConfigError::TooManyTones);
    }
    if c.sample_rate == 0 {
        return Err(ConfigError::ZeroSampleRate);
    }
    if c.amplitude_thousandths > 1000 {
        return Err(ConfigError::AmplitudeOutOfRange);
    }
    let two_f: u128 = 2 * (c.frequency_millihertz as u128);
    proof {
        assert(((c.num_tones - 1) as u128) * (c.spread_millihertz as u128)
            <= 4096 * 0xffff_ffff_ffff_ffffu128) by (nonlinear_arith)
            requires
                ((c.num_tones - 1) as u128) <= 4096,
                (c.spread_millihertz as u128) <= 0xffff_ffff_ffff_ffffu128,
        ;
    }
    let nm1_s: u128 = ((c.num_tones - 1) as u128) * (c.spread_millihertz as u128);
    if nm1_s > two_f {
        proof {
            lemma_mul_flip((c.num_tones - 1) as int, c.spread_millihertz as int);
            assert(c.tone_step(0) == 2 * c.frequency_millihertz
                - (c.num_tones - 1) * c.spread_millihertz);
            assert(!c.valid());
        }
        return Err(ConfigError::ToneOutOfRange);
    }
    if two_f + nm1_s > 1000 * (c.sample_rate as u128) {
        proof {
            assert(c.tone_step(c.num_tones - 1) == 2 * c.frequency_millihertz
                + (c.num_tones - 1) * c.spread_millihertz);
            assert(!c.valid());
        }
        return Err(ConfigError::ToneOutOfRange);
    }
    proof {
        lemma_steps_in_range(*c);
    }
    Ok(())
}

/// Outcome of the ultrasonic band check: the configuration to use, and
/// what the check had to flag or change along the way.
#[derive(Clone, Copy, Debug, PartialEq, Eq, Structural)]
pub struct ValidatedConfig {
    /// The configuration to hand to the generator; valid, with every tone
    /// in the ultrasonic band.
    pub config: SignalConfig,
    /// The base frequency was raised to keep all tones above the audible
    /// range.
    pub frequency_adjusted: bool,
    /// The requested gain risks audible harmonic distortion.
    pub amplitude_warning: bool,
    /// Some tone sits close enough to the Nyquist limit of a 48 kHz
    /// device to risk aliasing.
    pub aliasing_warning: bool,
}

/// The ultrasonic band check run before a generator is built. Computes the
/// edges of the tone fan, raises the base frequency if any tone would fall
/// into the audible range (below 20 kHz), flags high amplitudes and
/// near-Nyquist tones, and rejects configurations that no adjustment can
/// save.
pub fn validate_config(requested: &SignalConfig) -> (r: Result<ValidatedConfig, ConfigError>)
    ensures
        (r is Ok) <==> (1 <= requested.num_tones <= MAX_TONES && 1 <= requested.sample_rate
            && requested.amplitude_thousandths <= 1000 && 2 * requested.spec_adjusted_frequency()
            + (requested.num_tones - 1) * requested.spread_millihertz
            <= 1000 * requested.sample_rate),
        !(r is Ok) ==> r == Result::<ValidatedConfig, ConfigError>::Err(
            config_error_for(*requested),
        ),
        r matches Ok(v) ==> {
            &&& v.config.frequency_millihertz == requested.spec_adjusted_frequency()
            &&& v.config.sample_rate == requested.sample_rate
            &&& v.config.amplitude_thousandths == requested.amplitude_thousandths
            &&& v.config.num_tones == requested.num_tones
            &&& v.config.spread_millihertz == requested.spread_millihertz
            &&& v.frequency_adjusted
                == (requested.spec_min_tone() < ULTRASONIC_FLOOR_MILLIHERTZ)
            &&& v.amplitude_warning
                == (requested.amplitude_thousandths > AMPLITUDE_WARN_THOUSANDTHS)
            &&& v.aliasing_warning == (requested.spec_max_tone() > ALIAS_CEILING_MILLIHERTZ
                && requested.sample_rate == 48_000)
            &&& v.config.valid()
            &&& v.config.spec_min_tone() >= ULTRASONIC_FLOOR_MILLIHERTZ
        },
{
    if requested.num_tones == 0 {
        return Err(ConfigError::ZeroToneCount);
    }
    if requested.num_tones > MAX_TONES {
        return Err(ConfigError::TooManyTones);
    }
    if requested.sample_rate == 0 {
        return Err(ConfigError::ZeroSampleRate);
    }
    if requested.amplitude_thousandths > 1000 {
        return Err(ConfigError::AmplitudeOutOfRange);
    }
    let n = requested.num_tones;
    let s128: u128 = requested.spread_millihertz as u128;
    proof {
        assert(((n / 2) as u128) * s128 <= 2048 * 0xffff_ffff_ffff_ffffu128) by (nonlinear_arith)
            requires ((n / 2) as u128) <= 2048, s128 <= 0xffff_ffff_ffff_ffffu128;
        assert(((n - 1) as u128) * s128 <= 4096 * 0xffff_ffff_ffff_ffffu128) by (nonlinear_arith)
            requires ((n - 1) as u128) <= 4096, s128 <= 0xffff_ffff_ffff_ffffu128;
    }
    let half_span: u128 = ((n / 2) as u128) * s128;
    let nm1_s: u128 = ((n - 1) as u128) * s128;
    let f: u128 = requested.frequency_millihertz as u128;
    let floor128: u128 = ULTRASONIC_FLOOR_MILLIHERTZ as u128;
    let amplitude_warning = requested.amplitude_thousandths > AMPLITUDE_WARN_THOUSANDTHS;
    let aliasing_warning = f + half_span > ALIAS_CEILING_MILLIHERTZ as u128
        && requested.sample_rate == 48_000;
    let adjusted = f < floor128 + half_span;
    let adj_f: u128 = if adjusted {
        floor128 + half_span + ADJUST_MARGIN_MILLIHERTZ as u128
    } else {
        f
    };
    proof {
        assert(adj_f == requested.spec_adjusted_frequency());
    }
    if 2 * adj_f + nm1_s > 1000 * (requested.sample_rate as u128) {
        return Err(ConfigError::ToneOutOfRange);
    }
    let config = SignalConfig {
        frequency_millihertz: adj_f as u64,
        sample_rate: requested.sample_rate,
        amplitude_thousandths: requested.amplitude_thousandths,
        num_tones: requested.num_tones,
        spread_millihertz: requested.spread_millihertz,
    };
    proof {
        let ghost si = requested.spread_millihertz as int;
        let ghost h = (n / 2) as int;
        let ghost span = h * si;
        assert(2 * span == (2 * h) * si) by (nonlinear_arith)
            requires span == h * si;
        assert((n - 1) * si <= (2 * h) * si) by (nonlinear_arith)
            requires n - 1 <= 2 * h, 0 <= si;
        assert((n - 1) * config.spread_millihertz <= 2 * config.frequency_millihertz);
        lemma_steps_in_range(config);
    }
    Ok(ValidatedConfig { config, frequency_adjusted: adjusted, amplitude_warning, aliasing_warning })
}

impl Default for SignalConfig {
    /// Default tuning: 23 kHz center, three tones 300 Hz apart, quarter
    /// amplitude, against a 48 kHz device.
    fn default() -> (c: SignalConfig)
        ensures
            c.frequency_millihertz == 23_000_000,
            c.sample_rate == 48_000,
            c.amplitude_thousandths == 250,
            c.num_tones == 3,
            c.spread_millihertz == 300_000,
    {
        SignalConfig {
            frequency_millihertz: 23_000_000,
            sample_rate: 48_000,
            amplitude_thousandths: 250,
            num_tones: 3,
            spread_millihertz: 300_000,
        }
    }
}

} // verus!
