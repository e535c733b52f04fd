//! The jamming session: the state machine that binds a signal generator
//! to a live output stream.
//!
//! A session owns the generator and a state flag. The surrounding
//! program performs the actual device and stream work and reports the
//! plain facts back (the device's sample rate, whether the stream could
//! be opened); every decision — whether a start may proceed, which
//! configuration the stream must use, what happens on stop — is made
//! here.

use vstd::prelude::*;
use crate::config::{check_config, config_error_for, ConfigError, SignalConfig};
use crate::signal::{
    advanced_master, advanced_master_k, advanced_phases, advanced_phases_k, sample_spec,
    SignalGenerator, WAVE_SCALE,
};

verus! {

/// Lifecycle of a session: a stream is either playing or it is not;
/// stopping tears the stream down completely, so there is no paused
/// state.
#[derive(Clone, Copy, Debug, PartialEq, Eq, Structural)]
pub enum SessionState {
    /// No stream exists.
    Idle,
    /// Exactly one output stream is playing.
    Active,
}

/// Why a session operation failed.
#[derive(Clone, Copy, Debug, PartialEq, Eq, Structural)]
pub enum JamError {
    /// The configuration is unusable; carries the broken rule.
    ConfigurationError(ConfigError),
    /// No output device exists; retrying later may succeed.
    DeviceUnavailable,
    /// The device rejected the requested stream format.
    StreamSetupFailed,
    /// A stream is already playing; stop it first.
    AlreadyActive,
}

/// What a session is jamming for. System jamming is specified to mix
/// with captured system audio; without a real capture pipeline it
/// degrades to plain speaker output and says so.
#[derive(Clone, Copy, Debug, PartialEq, Eq, Structural)]
pub enum JamMode {
    /// Ultrasonic output straight through the speakers.
    Speaker,
    /// System-wide jamming intent, tagged with the requested mix ratio in
    /// thousandths.
    System { mix_ratio_thousandths: u32 },
}

/// Overwrites the caller's requested sample rate with the rate the
/// output device actually runs at — the device, not the caller, is
/// authoritative — and re-checks the configuration against it. With no
/// device there is nothing to play on.
pub fn prepare_stream_config(requested: &SignalConfig, device_rate: Option<u32>) -> (r: Result<
    SignalConfig,
    JamError,
>)
    ensures
        device_rate is None ==> r == Result::<SignalConfig, JamError>::Err(
            JamError::DeviceUnavailable,
        ),
        device_rate matches Some(rate) ==> {
            let adopted = SignalConfig {
                sample_rate: rate,
                frequency_millihertz: requested.frequency_millihertz,
                amplitude_thousandths: requested.amplitude_thousandths,
                num_tones: requested.num_tones,
                spread_millihertz: requested.spread_millihertz,
            };
            if adopted.valid() {
                r == Result::<SignalConfig, JamError>::Ok(adopted)
            } else {
                r == Result::<SignalConfig, JamError>::Err(
                    JamError::ConfigurationError(config_error_for(adopted)),
                )
            }
        },
{
    match device_rate {
        None => Err(JamError::DeviceUnavailable),
        Some(rate) => {
            let adopted = SignalConfig {
                sample_rate: rate,
                frequency_millihertz: requested.frequency_millihertz,
                amplitude_thousandths: requested.amplitude_thousandths,
                num_tones: requested.num_tones,
                spread_millihertz: requested.spread_millihertz,
            };
            match check_config(&adopted) {
                Ok(()) => Ok(adopted),
                Err(e) => Err(JamError::ConfigurationError(e)),
            }
        },
    }
}

/// A session: one generator, at most one playing stream.
///
/// The fields are public so that specifications can speak about them;
/// they are only ever changed by the methods, which keep [`Self::wf`].
pub struct JammingSession {
    /// Whether a stream is currently playing.
    pub state: SessionState,
    /// The oscillator bank the stream's callback draws samples from.
    pub generator: SignalGenerator,
    /// What this session is jamming for.
    pub mode: JamMode,
}

impl JammingSession {
    /// Well-formedness: the generator is well-formed and a system-mode
    /// mix ratio is at most one.
    pub open spec fn wf(self) -> bool {
        &&& self.generator.wf()
        &&& match self.mode {
            JamMode::System { mix_ratio_thousandths } => mix_ratio_thousandths <= 1000,
            JamMode::Speaker => true,
        }
    }

    /// Creates an idle session around a fresh generator.
    pub fn new(config: SignalConfig, mode: JamMode) -> (s: JammingSession)
        requires
            config.valid(),
            mode matches JamMode::System { mix_ratio_thousandths }
                ==> mix_ratio_thousandths <= 1000,
        ensures
            s.wf(),
            s.state == SessionState::Idle,
            s.mode == mode,
            s.generator.config == config,
            s.generator.master() == 0,
            s.generator.phases() == Seq::new(config.num_tones as nat, |i: int| 0int),
    {
        JammingSession { state: SessionState::Idle, generator: SignalGenerator::new(config), mode }
    }

    /// Requests the transition to `Active`. A start on a running session
    /// is rejected — the caller must stop first, so the previous stream
    /// is never silently orphaned. On success the surrounding program
    /// must now actually open the stream; if the device refuses, it
    /// reports that through [`Self::stream_failed`].
    pub fn start(&mut self) -> (r: Result<(), JamError>)
        requires
            old(self).wf(),
        ensures
            final(self).wf(),
            final(self).generator == old(self).generator,
            final(self).mode == old(self).mode,
            old(self).state == SessionState::Active ==> r == Result::<(), JamError>::Err(
                JamError::AlreadyActive,
            ) && final(self).state == SessionState::Active,
            old(self).state == SessionState::Idle ==> r == Result::<(), JamError>::Ok(())
                && final(self).state == SessionState::Active,
    {
        match self.state {
            SessionState::Active => Err(JamError::AlreadyActive),
            SessionState::Idle => {
                self.state = SessionState::Active;
                Ok(())
            },
        }
    }

    /// Records that the device rejected the stream after a successful
    /// [`Self::start`]: the session falls back to idle and the caller
    /// reports [`JamError::StreamSetupFailed`].
    pub fn stream_failed(&mut self)
        requires
            old(self).wf(),
        ensures
            final(self).wf(),
            final(self).generator == old(self).generator,
            final(self).mode == old(self).mode,
            final(self).state == SessionState::Idle,
    {
        self.state = SessionState::Idle;
    }

    /// Stops the session. Idempotent: stopping an idle session is a
    /// no-op, not an error. When this returns, the session is idle and
    /// the surrounding program tears the stream down before the call
    /// completes from the caller's point of view.
    pub fn stop(&mut self)
        requires
            old(self).wf(),
        ensures
            final(self).wf(),
            final(self).generator == old(self).generator,
            final(self).mode == old(self).mode,
            final(self).state == SessionState::Idle,
    {
        self.state = SessionState::Idle;
    }

    /// Whether a stream is currently playing.
    pub fn is_active(&self) -> (r: bool)
        ensures
            r == (self.state == SessionState::Active),
    {
        match self.state {
            SessionState::Active => true,
            SessionState::Idle => false,
        }
    }

    /// Whether this session runs in a degraded mode: system jamming has
    /// no real capture-and-mix pipeline behind it and falls back to the
    /// identical speaker-output behaviour, which the caller must surface
    /// rather than silently pretend to mix.
    pub fn is_degraded(&self) -> (r: bool)
        ensures
            r == (self.mode matches JamMode::System { .. }),
    {
        match self.mode {
            JamMode::System { .. } => true,
            JamMode::Speaker => false,
        }
    }

    /// Replaces the generator's configuration, resetting all phases; the
    /// surrounding program serializes this against the stream callback,
    /// so a buffer never mixes the old and the new configuration.
    pub fn reconfigure(&mut self, config: SignalConfig)
        requires
            old(self).wf(),
            config.valid(),
        ensures
            final(self).wf(),
            final(self).mode == old(self).mode,
            final(self).state == old(self).state,
            final(self).generator.config == config,
            final(self).generator.master() == 0,
            final(self).generator.phases() == Seq::new(config.num_tones as nat, |i: int| 0int),
    {
        self.generator.update_config(config);
    }

    /// Produces the next sample from the session's generator; the stream
    /// callback drains the generator only through the session.
    pub fn next_sample(&mut self) -> (sample: i64)
        requires
            old(self).wf(),
        ensures
            final(self).wf(),
            final(self).mode == old(self).mode,
            final(self).state == old(self).state,
            final(self).generator.config == old(self).generator.config,
            sample == sample_spec(
                old(self).generator.config,
                old(self).generator.master(),
                old(self).generator.phases(),
            ),
            final(self).generator.master() == advanced_master(
                old(self).generator.config,
                old(self).generator.master(),
            ),
            final(self).generator.phases() == advanced_phases(
                old(self).generator.config,
                old(self).generator.phases(),
            ),
            -(old(self).generator.config.amplitude_thousandths * WAVE_SCALE) <= 1000 * sample,
            1000 * sample <= old(self).generator.config.amplitude_thousandths * WAVE_SCALE,
    {
        self.generator.next_sample()
    }

    /// Fills an interleaved output buffer through the session's
    /// generator, one sample per frame of `channels` slots, duplicated
    /// identically across the channels; the stream callback's whole
    /// buffer is produced by this one call, so its samples are strictly
    /// sequential.
    pub fn fill_frames(&mut self, buffer: &mut Vec<i64>, channels: usize)
        requires
            old(self).wf(),
            1 <= channels,
            old(buffer)@.len() + channels <= usize::MAX,
        ensures
            final(self).wf(),
            final(self).mode == old(self).mode,
            final(self).state == old(self).state,
            final(self).generator.config == old(self).generator.config,
            final(buffer)@.len() == old(buffer)@.len(),
            final(self).generator.master() == advanced_master_k(
                old(self).generator.config,
                old(self).generator.master(),
                ((old(buffer)@.len() + channels - 1) / (channels as int)) as nat,
            ),
            final(self).generator.phases() == advanced_phases_k(
                old(self).generator.config,
                old(self).generator.phases(),
                ((old(buffer)@.len() + channels - 1) / (channels as int)) as nat,
            ),
            forall|t: int|
                0 <= t < old(buffer)@.len() ==> (#[trigger] final(buffer)@[t]) as int
                    == sample_spec(
                    old(self).generator.config,
                    advanced_master_k(
                        old(self).generator.config,
                        old(self).generator.master(),
                        (t / (channels as int)) as nat,
                    ),
                    advanced_phases_k(
                        old(self).generator.config,
                        old(self).generator.phases(),
                        (t / (channels as int)) as nat,
                    ),
                ),
    {
        self.generator.fill_frames(buffer, channels);
    }
}

/// The transition of [`JammingSession::start`], written out as a
/// relation so laws can chain calls: session `s2` with result `r2` is
/// the outcome of starting from `s`.
pub open spec fn step_start(s: JammingSession, s2: JammingSession, r2: Result<(), JamError>) -> bool {
    &&& s2.generator == s.generator
    &&& s2.mode == s.mode
    &&& (s.state == SessionState::Active ==> r2 == Result::<(), JamError>::Err(
        JamError::AlreadyActive,
    ) && s2.state == SessionState::Active)
    &&& (s.state == SessionState::Idle ==> r2 == Result::<(), JamError>::Ok(())
        && s2.state == SessionState::Active)
}

/// The transition of [`JammingSession::stop`] as a relation: `s2` is the
/// outcome of stopping `s`.
pub open spec fn step_stop(s: JammingSession, s2: JammingSession) -> bool {
    &&& s2.generator == s.generator
    &&& s2.mode == s.mode
    &&& s2.state == SessionState::Idle
}

/// Starting a session twice without stopping in between yields
/// `AlreadyActive` from the second call, whatever state the session
/// began in, and leaves the stream of the first start playing.
pub proof fn lemma_second_start_rejected(
    s0: JammingSession,
    s1: JammingSession,
    r1: Result<(), JamError>,
    s2: JammingSession,
    r2: Result<(), JamError>,
)
    requires
        s0.state == SessionState::Idle,
        step_start(s0, s1, r1),
        step_start(s1, s2, r2),
    ensures
        r1 == Result::<(), JamError>::Ok(()),
        r2 == Result::<(), JamError>::Err(JamError::AlreadyActive),
        s2.state == SessionState::Active,
        s2.generator == s0.generator,
{
}

/// Stopping an idle session is a no-op: the session afterwards is the
/// very session it was before.
pub proof fn lemma_stop_on_idle_is_noop(s: JammingSession, s2: JammingSession)
    requires
        s.state == SessionState::Idle,
        step_stop(s, s2),
    ensures
        s2 == s,
{
}

} // verus!
