use camouflage::platform::{contains, LinuxDevicePlan, MacDevicePlan, PlatformError};
use camouflage::{
    get_system_audio, LinuxSystemAudio, MacOSSystemAudio, Platform, PlatformSystemAudio,
    WindowsSystemAudio,
};

#[test]
fn linux_prefers_pulseaudio_and_falls_back_to_pipewire() {
    let audio = LinuxSystemAudio::new();
    assert_eq!(audio.sink_name, "camouflage_sink");
    assert_eq!(
        audio.plan_virtual_device(true, false),
        Ok(LinuxDevicePlan::PulseAudioLoopback)
    );
    assert_eq!(
        audio.plan_virtual_device(true, true),
        Ok(LinuxDevicePlan::PulseAudioLoopback)
    );
    assert_eq!(
        audio.plan_virtual_device(false, true),
        Ok(LinuxDevicePlan::PipeWireCompatLoopback)
    );
    assert_eq!(
        audio.plan_virtual_device(false, false),
        Err(PlatformError::AudioServerMissing)
    );
}

#[test]
fn linux_finds_its_sink_in_a_device_listing() {
    let audio = LinuxSystemAudio::new();
    let listing = b"0\talsa_output.pci\n7\tcamouflage_sink\tmodule-null-sink.c\n";
    assert!(audio.listing_mentions_sink(listing));
    assert!(!audio.listing_mentions_sink(b"0\talsa_output.pci\n"));
    assert!(!audio.listing_mentions_sink(b""));
}

#[test]
fn substring_search_edges() {
    assert!(contains(b"abc", b""));
    assert!(contains(b"", b""));
    assert!(!contains(b"ab", b"abc"));
    assert!(contains(b"aab", b"ab"));
    assert!(!contains(b"aab", b"ba"));
}

#[test]
fn macos_installs_the_driver_only_when_missing() {
    let audio = MacOSSystemAudio::new();
    assert_eq!(audio.device_name, "BlackHole 2ch");
    assert_eq!(audio.plan_virtual_device(true, false), Ok(MacDevicePlan::SetupOnly));
    assert_eq!(audio.plan_virtual_device(true, true), Ok(MacDevicePlan::SetupOnly));
    assert_eq!(
        audio.plan_virtual_device(false, true),
        Ok(MacDevicePlan::InstallThenSetup)
    );
    assert_eq!(
        audio.plan_virtual_device(false, false),
        Err(PlatformError::PackageManagerMissing)
    );
}

#[test]
fn windows_never_reports_a_managed_device() {
    let audio = WindowsSystemAudio::new();
    assert_eq!(audio.device_name, "Camouflage Virtual Audio");
    assert!(!audio.virtual_device_exists());
}

#[test]
fn each_platform_gets_its_own_variant() {
    assert!(matches!(
        get_system_audio(Platform::Linux),
        PlatformSystemAudio::Linux(_)
    ));
    assert!(matches!(
        get_system_audio(Platform::MacOs),
        PlatformSystemAudio::MacOs(_)
    ));
    assert!(matches!(
        get_system_audio(Platform::Windows),
        PlatformSystemAudio::Windows(_)
    ));
}
