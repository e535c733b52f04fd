//! Ultrasonic jamming core: a phase-continuous multi-tone oscillator bank
//! in exact fixed-point arithmetic, together with the configuration
//! validation rules and the session state machine that binds the
//! oscillator to a live audio stream.

pub mod config;
pub mod daemon;
pub mod platform;
pub mod session;
pub mod signal;
pub mod whisper;

pub use config::{check_config, validate_config, ConfigError, SignalConfig, ValidatedConfig};
pub use daemon::{get_pid_file, parse_pid, DaemonConfig};
pub use platform::{
    get_system_audio, LinuxSystemAudio, MacOSSystemAudio, Platform, PlatformSystemAudio,
    SystemAudio, WindowsSystemAudio,
};
pub use session::{prepare_stream_config, JamError, JamMode, JammingSession, SessionState};
pub use signal::SignalGenerator;
pub use whisper::{count_words, WhisperResponse, WhisperResult};
