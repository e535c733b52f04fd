//! The oscillator bank: phase-continuous multi-tone sample synthesis in
//! exact fixed-point arithmetic.
//!
//! A phase is a fraction `numerator / (2000 * sample_rate)` of a cycle,
//! advanced each sample by the tone's exact integer step and wrapped by
//! subtraction, so phase never drifts. A sample is the sum of one
//! parabolic-wave contribution per tone, scaled to `WAVE_SCALE` so that
//! full amplitude spans `[-WAVE_SCALE, WAVE_SCALE]`.

use vstd::prelude::*;
use vstd::arithmetic::div_mod::{
    lemma_add_mod_noop, lemma_div_is_ordered, lemma_div_multiples_vanish, lemma_div_pos_is_pos,
    lemma_fundamental_div_mod, lemma_fundamental_div_mod_converse_div, lemma_mod_add_multiples_vanish,
    lemma_mod_sub_multiples_vanish, lemma_small_mod,
};
use crate::config::SignalConfig;
use crate::config::MAX_TONES;

verus! {

/// Full scale of a produced sample: a sample at amplitude 1000
/// thousandths lies in `[-WAVE_SCALE, WAVE_SCALE]`.
pub const WAVE_SCALE: u64 = 32768;

/// One half-cycle of the waveform on `[0, h)`, scaled to peak at
/// `WAVE_SCALE`: the parabola `4 x (h - x) / h^2` through zero at the
/// ends and one at the midpoint.
pub open spec fn half_wave_spec(x: int, h: int) -> int {
    (4 * x * (h - x) * WAVE_SCALE) / (h * h)
}

/// Waveform value for a phase `num / den` of a full cycle: the first half
/// cycle is a positive arch, the second its mirror image.
pub open spec fn wave_spec(num: int, den: int) -> int {
    let h = den / 2;
    if num < h {
        half_wave_spec(num, h)
    } else {
        -half_wave_spec(num - h, h)
    }
}

/// One tone's share of a sample: the wave value scaled by the overall
/// amplitude (in thousandths) and split evenly across `tones`
/// oscillators, rounded toward zero.
pub open spec fn contribution_spec(amp: int, tones: int, w: int) -> int {
    if w >= 0 {
        (amp * w) / (1000 * tones)
    } else {
        -((amp * -w) / (1000 * tones))
    }
}

/// Phase wrap: a freshly advanced phase is reduced by one full cycle the
/// moment it reaches one, and never more, so no phase is ever lost.
pub open spec fn wrap_spec(p: int, den: int) -> int {
    if p >= den {
        p - den
    } else {
        p
    }
}

/// Sum of the contributions of the first `k` tones.
pub open spec fn tone_sum(cfg: SignalConfig, phases: Seq<int>, k: int) -> int
    decreases k,
{
    if k <= 0 {
        0
    } else {
        tone_sum(cfg, phases, k - 1) + contribution_spec(
            cfg.amplitude_thousandths as int,
            cfg.num_tones as int,
            wave_spec(phases[k - 1], cfg.phase_denominator()),
        )
    }
}

/// The sample a generator in the given state produces: a single tone
/// plays from the master phase at full amplitude, several tones play
/// from the bank with the amplitude split evenly.
pub open spec fn sample_spec(cfg: SignalConfig, master: int, phases: Seq<int>) -> int {
    if cfg.num_tones == 1 {
        contribution_spec(
            cfg.amplitude_thousandths as int,
            1,
            wave_spec(master, cfg.phase_denominator()),
        )
    } else {
        tone_sum(cfg, phases, cfg.num_tones as int)
    }
}

/// Master phase after one sample: it advances only in single-tone mode.
pub open spec fn advanced_master(cfg: SignalConfig, master: int) -> int {
    if cfg.num_tones == 1 {
        wrap_spec(master + cfg.tone_step(0), cfg.phase_denominator())
    } else {
        master
    }
}

/// Bank phases after one sample: each advances by its own tone's step,
/// independently, only in multi-tone mode.
pub open spec fn advanced_phases(cfg: SignalConfig, phases: Seq<int>) -> Seq<int> {
    if cfg.num_tones == 1 {
        phases
    } else {
        Seq::new(phases.len(), |i: int| wrap_spec(phases[i] + cfg.tone_step(i), cfg.phase_denominator()))
    }
}

/// Master phase after `k` samples.
pub open spec fn advanced_master_k(cfg: SignalConfig, master: int, k: nat) -> int
    decreases k,
{
    if k == 0 {
        master
    } else {
        advanced_master(cfg, advanced_master_k(cfg, master, (k - 1) as nat))
    }
}

/// Bank phases after `k` samples.
pub open spec fn advanced_phases_k(cfg: SignalConfig, phases: Seq<int>, k: nat) -> Seq<int>
    decreases k,
{
    if k == 0 {
        phases
    } else {
        advanced_phases(cfg, advanced_phases_k(cfg, phases, (k - 1) as nat))
    }
}

/// The `k` samples a generator in the given state produces, in order.
pub open spec fn outputs_spec(cfg: SignalConfig, master: int, phases: Seq<int>, k: nat) -> Seq<int>
    decreases k,
{
    if k == 0 {
        Seq::empty()
    } else {
        seq![sample_spec(cfg, master, phases)] + outputs_spec(
            cfg,
            advanced_master(cfg, master),
            advanced_phases(cfg, phases),
            (k - 1) as nat,
        )
    }
}

/// The half wave is nonnegative and never exceeds full scale.
proof fn lemma_half_wave_bounds(x: int, h: int)
    requires
        1 <= h,
        0 <= x < h,
    ensures
        0 <= half_wave_spec(x, h) <= WAVE_SCALE,
{
    let s = WAVE_SCALE as int;
    assert(0 <= 4 * x * (h - x) && 4 * x * (h - x) <= h * h) by (nonlinear_arith)
        requires 1 <= h, 0 <= x < h;
    assert(4 * x * (h - x) * s <= h * h * s) by (nonlinear_arith)
        requires 4 * x * (h - x) <= h * h, 0 <= s;
    assert(0 <= 4 * x * (h - x) * s) by (nonlinear_arith)
        requires 0 <= 4 * x * (h - x), 0 <= s;
    assert(0 < h * h) by (nonlinear_arith)
        requires 1 <= h;
    lemma_div_pos_is_pos(4 * x * (h - x) * s, h * h);
    lemma_div_is_ordered(4 * x * (h - x) * s, h * h * s, h * h);
    lemma_div_multiples_vanish(s, h * h);
}

/// The waveform stays within full scale for any in-range phase.
pub proof fn lemma_wave_bounds(num: int, den: int)
    requires
        2 <= den,
        den % 2 == 0,
        0 <= num < den,
    ensures
        -WAVE_SCALE <= wave_spec(num, den) <= WAVE_SCALE,
{
    let h = den / 2;
    if num < h {
        lemma_half_wave_bounds(num, h);
    } else {
        lemma_half_wave_bounds(num - h, h);
    }
}

/// A contribution keeps its scaled magnitude within the amplitude: the
/// product `1000 * tones * contribution` never exceeds `amp * WAVE_SCALE`
/// in magnitude, and a contribution alone never exceeds full scale.
proof fn lemma_contribution_bounds(amp: int, tones: int, w: int)
    requires
        0 <= amp <= 1000,
        1 <= tones <= MAX_TONES,
        -WAVE_SCALE <= w <= WAVE_SCALE,
    ensures
        -(amp * WAVE_SCALE) <= (1000 * tones) * contribution_spec(amp, tones, w),
        (1000 * tones) * contribution_spec(amp, tones, w) <= amp * WAVE_SCALE,
        w >= 0 ==> 0 <= contribution_spec(amp, tones, w),
        w < 0 ==> contribution_spec(amp, tones, w) <= 0,
        -WAVE_SCALE <= contribution_spec(amp, tones, w) <= WAVE_SCALE,
{
    let s = WAVE_SCALE as int;
    let d = 1000 * tones;
    let mag = if w >= 0 { w } else { -w };
    let q = (amp * mag) / d;
    assert(0 <= amp * mag && amp * mag <= amp * s) by (nonlinear_arith)
        requires 0 <= amp, 0 <= mag <= s;
    lemma_div_pos_is_pos(amp * mag, d);
    lemma_fundamental_div_mod(amp * mag, d);
    assert(d * q <= amp * mag);
    assert(amp * s <= d * s) by (nonlinear_arith)
        requires amp <= 1000, 0 <= s, 1 <= tones, d == 1000 * tones;
    lemma_div_is_ordered(amp * mag, d * s, d);
    lemma_div_multiples_vanish(s, d);
    assert(q <= s);
    assert(d * q >= -(amp * s)) by (nonlinear_arith)
        requires 0 <= d, 0 <= q, 0 <= amp * s;
    if w >= 0 {
        assert(contribution_spec(amp, tones, w) == q);
    } else {
        assert(contribution_spec(amp, tones, w) == -q);
        assert(d * -q == -(d * q)) by (nonlinear_arith);
    }
}

/// The scaled magnitude of a partial tone sum grows by at most
/// `amp * WAVE_SCALE` per tone.
proof fn lemma_tone_sum_bounds(cfg: SignalConfig, phases: Seq<int>, k: int)
    requires
        cfg.valid(),
        0 <= k <= cfg.num_tones,
        phases.len() == cfg.num_tones,
        forall|i: int| 0 <= i < phases.len() ==> 0 <= #[trigger] phases[i] < cfg.phase_denominator(),
    ensures
        -(k * (cfg.amplitude_thousandths * WAVE_SCALE))
            <= (1000 * cfg.num_tones) * tone_sum(cfg, phases, k),
        (1000 * cfg.num_tones) * tone_sum(cfg, phases, k)
            <= k * (cfg.amplitude_thousandths * WAVE_SCALE),
        -(k * WAVE_SCALE) <= tone_sum(cfg, phases, k) <= k * WAVE_SCALE,
    decreases k,
{
    let amp = cfg.amplitude_thousandths as int;
    let n = cfg.num_tones as int;
    let s = WAVE_SCALE as int;
    let den = cfg.phase_denominator();
    if k > 0 {
        lemma_tone_sum_bounds(cfg, phases, k - 1);
        assert(den % 2 == 0 && 2 <= den);
        lemma_wave_bounds(phases[k - 1], den);
        lemma_contribution_bounds(amp, n, wave_spec(phases[k - 1], den));
        let prev = tone_sum(cfg, phases, k - 1);
        let c = contribution_spec(amp, n, wave_spec(phases[k - 1], den));
        let a = amp * s;
        assert((1000 * n) * (prev + c) == (1000 * n) * prev + (1000 * n) * c) by (nonlinear_arith);
        assert((k - 1) * a + a == k * a) by (nonlinear_arith);
    }
}

/// Every sample lies within the configured amplitude: scaled by 1000, its
/// magnitude never exceeds `amplitude_thousandths * WAVE_SCALE`; at full
/// amplitude that is exactly full scale.
pub proof fn lemma_sample_in_amplitude_bound(cfg: SignalConfig, master: int, phases: Seq<int>)
    requires
        cfg.valid(),
        0 <= master < cfg.phase_denominator(),
        phases.len() == cfg.num_tones,
        forall|i: int| 0 <= i < phases.len() ==> 0 <= #[trigger] phases[i] < cfg.phase_denominator(),
    ensures
        -(cfg.amplitude_thousandths * WAVE_SCALE) <= 1000 * sample_spec(cfg, master, phases),
        1000 * sample_spec(cfg, master, phases) <= cfg.amplitude_thousandths * WAVE_SCALE,
{
    let amp = cfg.amplitude_thousandths as int;
    let n = cfg.num_tones as int;
    let s = WAVE_SCALE as int;
    let den = cfg.phase_denominator();
    if cfg.num_tones == 1 {
        lemma_wave_bounds(master, den);
        lemma_contribution_bounds(amp, 1, wave_spec(master, den));
    } else {
        lemma_tone_sum_bounds(cfg, phases, n);
        let total = tone_sum(cfg, phases, n);
        assert(-(amp * s) <= 1000 * total && 1000 * total <= amp * s) by (nonlinear_arith)
            requires
                1 <= n,
                (1000 * n) * total <= n * (amp * s),
                -(n * (amp * s)) <= (1000 * n) * total,
        ;
    }
}

/// Computes one half-wave value exactly.
fn half_wave_at(x: u64, h: u64) -> (m: u64)
    requires
        1 <= h,
        x < h,
        h <= 0x3e8_0000_0000u64 * 4,
    ensures
        m == half_wave_spec(x as int, h as int),
        m <= WAVE_SCALE,
{
    proof {
        let xi = x as int;
        let hi = h as int;
        let s = WAVE_SCALE as int;
        lemma_half_wave_bounds(xi, hi);
        assert(4 * xi * (hi - xi) * s < 0x1_0000_0000_0000_0000_0000_0000_0000u128) by (nonlinear_arith)
            requires 0 <= xi < hi, hi <= 0xfa0_0000_0000u64, s == 32768;
        assert(hi * hi < 0x1_0000_0000_0000_0000_0000_0000_0000u128) by (nonlinear_arith)
            requires 0 < hi, hi <= 0xfa0_0000_0000u64;
        assert(0 < hi * hi) by (nonlinear_arith)
            requires 0 < hi;
    }
    let numerator: u128 = 4 * (x as u128) * ((h - x) as u128) * (WAVE_SCALE as u128);
    let denominator: u128 = (h as u128) * (h as u128);
    (numerator / denominator) as u64
}

/// Computes the waveform value for an in-range phase exactly.
fn wave_at(num: u64, den: u64) -> (w: i64)
    requires
        2 <= den,
        den % 2 == 0,
        num < den,
        den <= 2000 * 0xffff_ffffu64,
    ensures
        w == wave_spec(num as int, den as int),
        -WAVE_SCALE <= w <= WAVE_SCALE,
{
    let h = den / 2;
    if num < h {
        half_wave_at(num, h) as i64
    } else {
        -(half_wave_at(num - h, h) as i64)
    }
}

/// Scales a wave value by the amplitude and splits it across the tones,
/// rounding toward zero as the division runs on magnitudes only.
fn scaled_contribution(amp: u32, tones: usize, w: i64) -> (c: i64)
    requires
        amp <= 1000,
        1 <= tones <= MAX_TONES,
        -WAVE_SCALE <= w <= WAVE_SCALE,
    ensures
        c == contribution_spec(amp as int, tones as int, w as int),
        -WAVE_SCALE <= c <= WAVE_SCALE,
{
    proof {
        lemma_contribution_bounds(amp as int, tones as int, w as int);
    }
    let divisor: u64 = 1000 * (tones as u64);
    if w >= 0 {
        proof {
            assert((amp as int) * (w as int) <= 1000 * (WAVE_SCALE as int)) by (nonlinear_arith)
                requires amp <= 1000, 0 <= w <= WAVE_SCALE;
        }
        (((amp as u64) * (w as u64)) / divisor) as i64
    } else {
        let mag: u64 = (-w) as u64;
        proof {
            assert((amp as int) * (mag as int) <= 1000 * (WAVE_SCALE as int)) by (nonlinear_arith)
                requires amp <= 1000, 0 <= mag <= WAVE_SCALE;
        }
        -((((amp as u64) * mag) / divisor) as i64)
    }
}

/// Advances a phase by one step and wraps it into `[0, den)` by a single
/// subtraction, never discarding more than one full cycle.
fn wrap_add(p: u64, step: u64, den: u64) -> (r: u64)
    requires
        p < den,
        step <= den,
        den <= 2000 * 0xffff_ffffu64,
    ensures
        r == wrap_spec(p + step, den as int),
        r < den,
{
    let sum = p + step;
    if sum >= den {
        sum - den
    } else {
        sum
    }
}

/// Generator for ultrasonic signals: holds the configuration, one phase
/// accumulator per tone, and the master phase used in single-tone mode.
///
/// The fields are public so that specifications can speak about them;
/// they are only ever changed by the methods, which keep [`Self::wf`].
pub struct SignalGenerator {
    /// Current configuration; replaced only by [`Self::update_config`].
    pub config: SignalConfig,
    /// Master phase accumulator, used when a single tone plays.
    pub phase: u64,
    /// One phase accumulator per tone, used when several tones play.
    pub tone_phases: Vec<u64>,
}

impl SignalGenerator {
    /// Well-formedness: the configuration is valid, the bank has one
    /// accumulator per tone, and every phase lies inside one cycle.
    pub open spec fn wf(self) -> bool {
        &&& self.config.valid()
        &&& self.phase < self.config.phase_denominator()
        &&& self.tone_phases@.len() == self.config.num_tones
        &&& forall|i: int|
            0 <= i < self.tone_phases@.len()
                ==> (#[trigger] self.tone_phases@[i]) < self.config.phase_denominator()
    }

    /// The bank phases as mathematical integers.
    pub open spec fn phases(self) -> Seq<int> {
        self.tone_phases@.map_values(|p: u64| p as int)
    }

    /// The master phase as a mathematical integer.
    pub open spec fn master(self) -> int {
        self.phase as int
    }

    /// Creates a generator with all phases at zero.
    pub fn new(config: SignalConfig) -> (g: SignalGenerator)
        requires
            config.valid(),
        ensures
            g.wf(),
            g.config == config,
            g.master() == 0,
            g.phases() == Seq::new(config.num_tones as nat, |i: int| 0int),
    {
        let tone_phases: Vec<u64> = vec![0u64; config.num_tones];
        let g = SignalGenerator { config, phase: 0, tone_phases };
        proof {
            assert(g.phases() =~= Seq::new(config.num_tones as nat, |i: int| 0int));
        }
        g
    }

    /// The current configuration.
    pub fn config(&self) -> (c: &SignalConfig)
        ensures
            c == self.config,
    {
        &self.config
    }

    /// Produces exactly one sample and advances the state by one sample
    /// period. The sample always lies within the configured amplitude:
    /// `1000 * sample` is at most `amplitude_thousandths * WAVE_SCALE` in
    /// magnitude.
    pub fn next_sample(&mut self) -> (sample: i64)
        requires
            old(self).wf(),
        ensures
            final(self).wf(),
            final(self).config == old(self).config,
            sample == sample_spec(old(self).config, old(self).master(), old(self).phases()),
            final(self).master() == advanced_master(old(self).config, old(self).master()),
            final(self).phases() == advanced_phases(old(self).config, old(self).phases()),
            -(old(self).config.amplitude_thousandths * WAVE_SCALE) <= 1000 * sample,
            1000 * sample <= old(self).config.amplitude_thousandths * WAVE_SCALE,
    {
        proof {
            lemma_sample_in_amplitude_bound(
                old(self).config,
                old(self).master(),
                old(self).phases(),
            );
        }
        let den: u64 = 2000 * (self.config.sample_rate as u64);
        if self.config.num_tones == 1 {
            let w = wave_at(self.phase, den);
            let c = scaled_contribution(self.config.amplitude_thousandths, 1, w);
            let step = self.config.tone_step_at(0);
            self.phase = wrap_add(self.phase, step, den);
            proof {
                assert(final(self).phases() =~= advanced_phases(old(self).config, old(self).phases()));
            }
            c
        } else {
            let n = self.config.num_tones;
            let ghost cfg0 = self.config;
            let ghost ph0 = self.phases();
            let ghost m0 = self.master();
            let mut acc: i64 = 0;
            let mut i: usize = 0;
            while i < n
                invariant
                    cfg0.valid(),
                    cfg0.num_tones == n,
                    1 <= n <= MAX_TONES,
                    den == cfg0.phase_denominator(),
                    i <= n,
                    self.config == cfg0,
                    self.phase == m0,
                    self.tone_phases@.len() == n,
                    ph0.len() == n,
                    forall|j: int| 0 <= j < n ==> 0 <= #[trigger] ph0[j] < cfg0.phase_denominator(),
                    forall|j: int|
                        i <= j < n ==> (#[trigger] self.tone_phases@[j]) as int == ph0[j],
                    forall|j: int|
                        0 <= j < i ==> (#[trigger] self.tone_phases@[j]) as int == wrap_spec(
                            ph0[j] + cfg0.tone_step(j),
                            cfg0.phase_denominator(),
                        ) && self.tone_phases@[j] < cfg0.phase_denominator(),
                    acc == tone_sum(cfg0, ph0, i as int),
                    -(i * WAVE_SCALE) <= acc <= i * WAVE_SCALE,
                decreases n - i,
            {
                let p = self.tone_phases[i];
                let w = wave_at(p, den);
                let c = scaled_contribution(self.config.amplitude_thousandths, n, w);
                acc = acc + c;
                let step = self.config.tone_step_at(i);
                let wrapped = wrap_add(p, step, den);
                self.tone_phases[i] = wrapped;
                i = i + 1;
            }
            proof {
                assert(final(self).phases() =~= advanced_phases(cfg0, ph0));
                assert(acc == sample_spec(cfg0, m0, ph0));
            }
            acc
        }
    }

    /// Fills the whole buffer by producing one sample per slot, in order:
    /// the buffer ends up holding exactly the samples that as many
    /// single-sample calls would have produced, and the generator ends in
    /// the same state such calls would have left it in.
    pub fn generate_buffer(&mut self, buffer: &mut Vec<i64>)
        requires
            old(self).wf(),
        ensures
            final(self).wf(),
            final(self).config == old(self).config,
            final(buffer)@.len() == old(buffer)@.len(),
            final(self).master() == advanced_master_k(
                old(self).config,
                old(self).master(),
                old(buffer)@.len(),
            ),
            final(self).phases() == advanced_phases_k(
                old(self).config,
                old(self).phases(),
                old(buffer)@.len(),
            ),
            final(buffer)@.map_values(|s: i64| s as int) == outputs_spec(
                old(self).config,
                old(self).master(),
                old(self).phases(),
                old(buffer)@.len(),
            ),
    {
        let ghost cfg0 = self.config;
        let ghost m0 = self.master();
        let ghost ph0 = self.phases();
        let len = buffer.len();
        let mut j: usize = 0;
        while j < len
            invariant
                self.wf(),
                self.config == cfg0,
                j <= len,
                buffer@.len() == len,
                self.master() == advanced_master_k(cfg0, m0, j as nat),
                self.phases() == advanced_phases_k(cfg0, ph0, j as nat),
                forall|t: int|
                    0 <= t < j ==> (#[trigger] buffer@[t]) as int == sample_spec(
                        cfg0,
                        advanced_master_k(cfg0, m0, t as nat),
                        advanced_phases_k(cfg0, ph0, t as nat),
                    ),
            decreases len - j,
        {
            let s = self.next_sample();
            buffer[j] = s;
            j = j + 1;
        }
        proof {
            lemma_fill_matches_repeated_sampling(cfg0, m0, ph0, len as nat);
            assert(buffer@.map_values(|s: i64| s as int) =~= outputs_spec(
                cfg0,
                m0,
                ph0,
                len as nat,
            ));
        }
    }

    /// Fills an interleaved output buffer as the audio callback does: each
    /// frame of `channels` consecutive slots receives the next sample,
    /// duplicated identically across all channels. Slot `t` belongs to
    /// frame `t / channels`, and one sample is produced per frame.
    pub fn fill_frames(&mut self, buffer: &mut Vec<i64>, channels: usize)
        requires
            old(self).wf(),
            1 <= channels,
            old(buffer)@.len() + channels <= usize::MAX,
        ensures
            final(self).wf(),
            final(self).config == old(self).config,
            final(buffer)@.len() == old(buffer)@.len(),
            final(self).master() == advanced_master_k(
                old(self).config,
                old(self).master(),
                ((old(buffer)@.len() + channels - 1) / (channels as int)) as nat,
            ),
            final(self).phases() == advanced_phases_k(
                old(self).config,
                old(self).phases(),
                ((old(buffer)@.len() + channels - 1) / (channels as int)) as nat,
            ),
            forall|t: int|
                0 <= t < old(buffer)@.len() ==> (#[trigger] final(buffer)@[t]) as int
                    == sample_spec(
                    old(self).config,
                    advanced_master_k(old(self).config, old(self).master(), (t / (channels as int)) as nat),
                    advanced_phases_k(old(self).config, old(self).phases(), (t / (channels as int)) as nat),
                ),
    {
        let ghost cfg0 = self.config;
        let ghost m0 = self.master();
        let ghost ph0 = self.phases();
        let len = buffer.len();
        let mut base: usize = 0;
        let mut frame: usize = 0;
        while base < len
            invariant
                self.wf(),
                self.config == cfg0,
                buffer@.len() == len,
                len + channels <= usize::MAX,
                1 <= channels,
                base == frame * channels,
                base < len + channels,
                self.master() == advanced_master_k(cfg0, m0, frame as nat),
                self.phases() == advanced_phases_k(cfg0, ph0, frame as nat),
                forall|t: int|
                    0 <= t < base && t < len ==> (#[trigger] buffer@[t]) as int == sample_spec(
                        cfg0,
                        advanced_master_k(cfg0, m0, (t / (channels as int)) as nat),
                        advanced_phases_k(cfg0, ph0, (t / (channels as int)) as nat),
                    ),
            decreases len + channels - base,
        {
            let s = self.next_sample();
            let mut c: usize = 0;
            while c < channels && base + c < len
                invariant
                    buffer@.len() == len,
                    base + channels <= usize::MAX,
                    c <= channels,
                    base < len,
                    forall|t: int|
                        base <= t < base + c ==> (#[trigger] buffer@[t]) == s,
                    forall|t: int|
                        0 <= t < base && t < len ==> (#[trigger] buffer@[t]) as int
                            == sample_spec(
                            cfg0,
                            advanced_master_k(cfg0, m0, (t / (channels as int)) as nat),
                            advanced_phases_k(cfg0, ph0, (t / (channels as int)) as nat),
                        ),
                decreases channels - c,
            {
                buffer[base + c] = s;
                c = c + 1;
            }
            proof {
                assert forall|t: int| base <= t < base + channels implies #[trigger] (t / (
                channels as int)) == frame as int by {
                    lemma_fundamental_div_mod_converse_div(t, channels as int, frame as int, t - base);
                }
            }
            proof {
                assert(frame * channels >= frame) by (nonlinear_arith)
                    requires channels >= 1, frame >= 0;
                assert((frame + 1) * channels == frame * channels + channels)
                    by (nonlinear_arith);
            }
            base = base + channels;
            frame = frame + 1;
        }
        proof {
            assert((frame * channels) as int == (frame as int) * (channels as int))
                by (nonlinear_arith)
                requires frame * channels <= usize::MAX;
            lemma_fundamental_div_mod_converse_div(
                len + channels - 1,
                channels as int,
                frame as int,
                len + channels - 1 - (frame as int) * (channels as int),
            );
        }
    }

    /// Replaces the configuration and resets every phase to zero,
    /// resizing the bank to the new tone count. Deliberately not
    /// phase-continuous: the generator restarts exactly as a freshly
    /// constructed one would.
    pub fn update_config(&mut self, config: SignalConfig)
        requires
            config.valid(),
        ensures
            final(self).wf(),
            final(self).config == config,
            final(self).master() == 0,
            final(self).phases() == Seq::new(config.num_tones as nat, |i: int| 0int),
    {
        self.config = config;
        self.tone_phases = vec![0u64; config.num_tones];
        self.phase = 0;
        proof {
            assert(final(self).phases() =~= Seq::new(config.num_tones as nat, |i: int| 0int));
        }
    }
}

/// Advancing one step and then `k` more is the same as advancing `k + 1`
/// steps.
proof fn lemma_advance_k_front(cfg: SignalConfig, m: int, ph: Seq<int>, k: nat)
    ensures
        advanced_master_k(cfg, advanced_master(cfg, m), k) == advanced_master_k(
            cfg,
            m,
            (k + 1) as nat,
        ),
        advanced_phases_k(cfg, advanced_phases(cfg, ph), k) == advanced_phases_k(
            cfg,
            ph,
            (k + 1) as nat,
        ),
    decreases k,
{
    let m1 = advanced_master(cfg, m);
    let ph1 = advanced_phases(cfg, ph);
    if k == 0 {
        assert(advanced_master_k(cfg, m1, 0) == m1);
        assert(advanced_master_k(cfg, m, 0) == m);
        assert(advanced_master_k(cfg, m, 1) == advanced_master(cfg, advanced_master_k(cfg, m, 0)));
        assert(advanced_phases_k(cfg, ph1, 0) == ph1);
        assert(advanced_phases_k(cfg, ph, 0) == ph);
        assert(advanced_phases_k(cfg, ph, 1) == advanced_phases(cfg, advanced_phases_k(cfg, ph, 0)));
    } else {
        lemma_advance_k_front(cfg, m, ph, (k - 1) as nat);
        assert(advanced_master_k(cfg, m1, k) == advanced_master(
            cfg,
            advanced_master_k(cfg, m1, (k - 1) as nat),
        ));
        assert(advanced_master_k(cfg, m, (k + 1) as nat) == advanced_master(
            cfg,
            advanced_master_k(cfg, m, k),
        ));
        assert(advanced_phases_k(cfg, ph1, k) == advanced_phases(
            cfg,
            advanced_phases_k(cfg, ph1, (k - 1) as nat),
        ));
        assert(advanced_phases_k(cfg, ph, (k + 1) as nat) == advanced_phases(
            cfg,
            advanced_phases_k(cfg, ph, k),
        ));
    }
}

/// Filling a buffer of length `k` and sampling `k` times one by one are
/// the same thing: the `j`-th produced sample is exactly the sample of
/// the state reached after `j` single steps.
pub proof fn lemma_fill_matches_repeated_sampling(cfg: SignalConfig, m: int, ph: Seq<int>, k: nat)
    ensures
        outputs_spec(cfg, m, ph, k).len() == k,
        forall|j: int|
            0 <= j < k ==> #[trigger] outputs_spec(cfg, m, ph, k)[j] == sample_spec(
                cfg,
                advanced_master_k(cfg, m, j as nat),
                advanced_phases_k(cfg, ph, j as nat),
            ),
    decreases k,
{
    if k > 0 {
        let m1 = advanced_master(cfg, m);
        let ph1 = advanced_phases(cfg, ph);
        lemma_fill_matches_repeated_sampling(cfg, m1, ph1, (k - 1) as nat);
        assert forall|j: int|
            0 <= j < k implies #[trigger] outputs_spec(cfg, m, ph, k)[j] == sample_spec(
            cfg,
            advanced_master_k(cfg, m, j as nat),
            advanced_phases_k(cfg, ph, j as nat),
        ) by {
            if j > 0 {
                assert(outputs_spec(cfg, m, ph, k)[j] == outputs_spec(cfg, m1, ph1, (k - 1) as nat)[
                    j - 1]);
                lemma_advance_k_front(cfg, m, ph, (j - 1) as nat);
            }
        }
    }
}

/// Two generators in the same state produce the same samples forever:
/// the generator is deterministic, so a reconfigured generator and a
/// freshly constructed one with the same configuration (both with all
/// phases at zero) are indistinguishable from that point on.
pub proof fn lemma_reconfigured_matches_fresh(a: SignalGenerator, b: SignalGenerator, k: nat)
    requires
        a.config == b.config,
        a.master() == b.master(),
        a.phases() == b.phases(),
    ensures
        outputs_spec(a.config, a.master(), a.phases(), k) == outputs_spec(
            b.config,
            b.master(),
            b.phases(),
            k,
        ),
{
}

/// After `k` samples, a single-tone generator's master phase is the
/// start phase advanced by `k` steps, reduced modulo one full cycle.
proof fn lemma_advanced_master_mod(cfg: SignalConfig, m: int, k: nat)
    requires
        cfg.valid(),
        cfg.num_tones == 1,
        0 <= m < cfg.phase_denominator(),
    ensures
        advanced_master_k(cfg, m, k) == (m + k * cfg.tone_step(0)) % cfg.phase_denominator(),
        0 <= advanced_master_k(cfg, m, k) < cfg.phase_denominator(),
    decreases k,
{
    let den = cfg.phase_denominator();
    let s = cfg.tone_step(0);
    assert(0 <= s <= 1000 * cfg.sample_rate);
    if k == 0 {
        lemma_small_mod(m as nat, den as nat);
    } else {
        lemma_advanced_master_mod(cfg, m, (k - 1) as nat);
        let prev = advanced_master_k(cfg, m, (k - 1) as nat);
        assert(advanced_master_k(cfg, m, k) == advanced_master(cfg, prev));
        assert(advanced_master(cfg, prev) == wrap_spec(prev + s, den));
        assert(k * s == (k - 1) * s + s) by (nonlinear_arith);
        lemma_add_mod_noop(m + (k - 1) * s, s, den);
        lemma_small_mod(s as nat, den as nat);
        assert((m + k * s) % den == (prev + s) % den);
        if prev + s >= den {
            lemma_mod_sub_multiples_vanish(prev + s, den);
            lemma_small_mod((prev + s - den) as nat, den as nat);
            assert(advanced_master_k(cfg, m, k) == prev + s - den);
        } else {
            lemma_small_mod((prev + s) as nat, den as nat);
        }
    }
}

/// Periodicity of the single-tone generator: when `k` steps add up to
/// exactly one full cycle (`k * tone_step == phase_denominator`), the
/// master phase after `k` samples is exactly the phase it started from,
/// so sample `k` equals sample `0`.
pub proof fn lemma_single_tone_periodicity(cfg: SignalConfig, m: int, ph: Seq<int>, k: nat)
    requires
        cfg.valid(),
        cfg.num_tones == 1,
        0 <= m < cfg.phase_denominator(),
        k * cfg.tone_step(0) == cfg.phase_denominator(),
    ensures
        advanced_master_k(cfg, m, k) == m,
        sample_spec(cfg, advanced_master_k(cfg, m, k), advanced_phases_k(cfg, ph, k))
            == sample_spec(cfg, m, ph),
{
    let den = cfg.phase_denominator();
    lemma_advanced_master_mod(cfg, m, k);
    lemma_mod_add_multiples_vanish(m, den);
    lemma_small_mod(m as nat, den as nat);
    assert(advanced_phases_k(cfg, ph, k) == ph) by {
        lemma_single_tone_phases_fixed(cfg, ph, k);
    }
}

/// Signed division that rounds toward zero, as the PCM mixer divides.
pub open spec fn div_toward_zero(x: int, d: int) -> int {
    if x >= 0 {
        x / d
    } else {
        -((-x) / d)
    }
}

/// Converts a produced sample to a signed 16-bit PCM value. Samples span
/// `[-WAVE_SCALE, WAVE_SCALE]` while 16-bit PCM tops out one below
/// `WAVE_SCALE`, so the single highest value saturates.
pub fn sample_to_i16(sample: i64) -> (r: i16)
    requires
        -WAVE_SCALE <= sample <= WAVE_SCALE,
    ensures
        r == if sample > i16::MAX { i16::MAX as int } else { sample as int },
{
    if sample > 32767 {
        32767
    } else {
        sample as i16
    }
}

/// Mixes one PCM sample of original audio with one PCM sample of the
/// ultrasonic signal: the mix ratio (in thousandths) weighs the
/// ultrasonic signal, the rest of the weight stays with the original.
pub fn mix_sample(original: i16, ultrasonic: i16, mix_ratio_thousandths: u32) -> (r: i16)
    requires
        mix_ratio_thousandths <= 1000,
    ensures
        r == div_toward_zero(
            original * (1000 - mix_ratio_thousandths) + ultrasonic * mix_ratio_thousandths,
            1000,
        ),
{
    let m: i64 = mix_ratio_thousandths as i64;
    proof {
        assert(-32768000 <= (original as int) * (1000 - m)
            && (original as int) * (1000 - m) <= 32767000) by (nonlinear_arith)
            requires -32768 <= original <= 32767, 0 <= m <= 1000;
        assert(-32768000 <= (ultrasonic as int) * m && (ultrasonic as int) * m <= 32767000)
            by (nonlinear_arith)
            requires -32768 <= ultrasonic <= 32767, 0 <= m <= 1000;
        assert((original as int) * (1000 - m) + (ultrasonic as int) * m <= 32767000
            && -32768000 <= (original as int) * (1000 - m) + (ultrasonic as int) * m)
            by (nonlinear_arith)
            requires
                -32768 <= original <= 32767,
                -32768 <= ultrasonic <= 32767,
                0 <= m <= 1000,
        ;
    }
    let num: i64 = (original as i64) * (1000 - m) + (ultrasonic as i64) * m;
    let r64: i64 = if num >= 0 {
        proof {
            lemma_div_is_ordered(num as int, 32767000, 1000);
        }
        ((num as u64) / 1000) as i64
    } else {
        let mag: u64 = (-num) as u64;
        proof {
            lemma_div_is_ordered(mag as int, 32768000, 1000);
        }
        -((mag / 1000) as i64)
    };
    r64 as i16
}

/// Number of samples a recording of the given duration holds at the
/// given sample rate.
pub fn samples_for_duration(sample_rate: u32, duration_millis: u32) -> (n: u64)
    ensures
        n == (sample_rate * duration_millis) / 1000,
{
    proof {
        assert((sample_rate as int) * (duration_millis as int) < 0x1_0000_0000_0000_0000)
            by (nonlinear_arith)
            requires sample_rate < 0x1_0000_0000, duration_millis < 0x1_0000_0000;
    }
    ((sample_rate as u64) * (duration_millis as u64)) / 1000
}

/// In single-tone mode the bank phases never move.
proof fn lemma_single_tone_phases_fixed(cfg: SignalConfig, ph: Seq<int>, k: nat)
    requires
        cfg.num_tones == 1,
    ensures
        advanced_phases_k(cfg, ph, k) == ph,
    decreases k,
{
    if k > 0 {
        lemma_single_tone_phases_fixed(cfg, ph, (k - 1) as nat);
    }
}

} // verus!
