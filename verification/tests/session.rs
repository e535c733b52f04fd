use camouflage::{
    prepare_stream_config, JamError, JamMode, JammingSession, ConfigError, SignalConfig,
};

#[test]
fn starting_twice_yields_already_active_and_stop_is_idempotent() {
    let mut session = JammingSession::new(SignalConfig::default(), JamMode::Speaker);
    assert!(!session.is_active());

    assert!(session.start().is_ok());
    assert!(session.is_active());

    // A second start without a stop is rejected.
    assert_eq!(session.start().unwrap_err(), JamError::AlreadyActive);
    assert!(session.is_active());

    // Stop is idempotent: stopping an idle session is a no-op.
    session.stop();
    assert!(!session.is_active());
    session.stop();
    assert!(!session.is_active());

    // After stopping, a start succeeds again.
    assert!(session.start().is_ok());
}

#[test]
fn stream_failure_returns_the_session_to_idle() {
    let mut session = JammingSession::new(SignalConfig::default(), JamMode::Speaker);
    assert!(session.start().is_ok());
    session.stream_failed();
    assert!(!session.is_active());
    assert!(session.start().is_ok());
}

#[test]
fn missing_device_fails_the_stream_config() {
    let requested = SignalConfig::default();
    assert_eq!(
        prepare_stream_config(&requested, None).unwrap_err(),
        JamError::DeviceUnavailable
    );
}

#[test]
fn device_sample_rate_overrides_the_requested_one() {
    let requested = SignalConfig { sample_rate: 48_000, ..SignalConfig::default() };
    let adopted = prepare_stream_config(&requested, Some(96_000)).unwrap();
    assert_eq!(adopted.sample_rate, 96_000);
    assert_eq!(adopted.frequency_millihertz, requested.frequency_millihertz);
    assert_eq!(adopted.num_tones, requested.num_tones);
}

#[test]
fn unusable_device_rate_is_a_configuration_error() {
    let requested = SignalConfig::default();
    // A 23 kHz tone cannot play on a 8 kHz device.
    match prepare_stream_config(&requested, Some(8_000)).unwrap_err() {
        JamError::ConfigurationError(e) => assert_eq!(e, ConfigError::ToneOutOfRange),
        other => panic!("expected a configuration error, got {:?}", other),
    }
    match prepare_stream_config(&requested, Some(0)).unwrap_err() {
        JamError::ConfigurationError(e) => assert_eq!(e, ConfigError::ZeroSampleRate),
        other => panic!("expected a configuration error, got {:?}", other),
    }
}

#[test]
fn system_mode_reports_its_degradation() {
    let speaker = JammingSession::new(SignalConfig::default(), JamMode::Speaker);
    assert!(!speaker.is_degraded());

    let system = JammingSession::new(
        SignalConfig::default(),
        JamMode::System { mix_ratio_thousandths: 500 },
    );
    assert!(system.is_degraded());
}

#[test]
fn session_reconfigure_restarts_the_generator() {
    let first = SignalConfig::default();
    let second = SignalConfig { num_tones: 1, ..first };

    let mut session = JammingSession::new(first, JamMode::Speaker);
    assert!(session.start().is_ok());
    for _ in 0..777 {
        session.next_sample();
    }
    session.reconfigure(second);

    let mut fresh = JammingSession::new(second, JamMode::Speaker);
    for _ in 0..300 {
        assert_eq!(session.next_sample(), fresh.next_sample());
    }
    // Reconfiguring does not change the lifecycle state.
    assert!(session.is_active());
}
