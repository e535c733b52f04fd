//! Platform system audio: one capability interface, one variant per
//! platform, and the decisions each variant makes.
//!
//! Creating loopback devices, probing audio servers and installing
//! drivers are shell work done by the surrounding program; what stands
//! here is everything that can be decided from plain facts — which setup
//! plan follows from what is installed, and whether a device listing
//! names the virtual sink.

use vstd::prelude::*;

verus! {

/// Why platform setup cannot proceed.
#[derive(Clone, Copy, Debug, PartialEq, Eq, Structural)]
pub enum PlatformError {
    /// No supported audio server is running.
    AudioServerMissing,
    /// No package manager is available to install the missing driver.
    PackageManagerMissing,
    /// A platform tool could not be run or reported failure; raised by
    /// the implementations that carry out a plan.
    CommandFailed,
}

/// Platform-specific system audio capability. The methods do process and
/// device work, so the implementations live with the surrounding
/// program; the decision logic they rely on stands below.
pub trait SystemAudio {
    /// Create a virtual audio device.
    fn create_virtual_device(&self) -> Result<(), PlatformError>;

    /// Start capturing system audio.
    fn start_capture(&mut self) -> Result<(), PlatformError>;

    /// Stop capturing system audio.
    fn stop_capture(&mut self);

    /// Check whether the virtual device exists.
    fn virtual_device_exists(&self) -> bool;

    /// Remove the virtual audio device.
    fn remove_virtual_device(&self) -> Result<(), PlatformError>;
}

/// The platforms a system audio variant exists for.
#[derive(Clone, Copy, Debug, PartialEq, Eq, Structural)]
pub enum Platform {
    Linux,
    MacOs,
    Windows,
}

/// How a Linux virtual device is to be created, given which audio
/// servers answered a version probe.
#[derive(Clone, Copy, Debug, PartialEq, Eq, Structural)]
pub enum LinuxDevicePlan {
    /// PulseAudio is running: load a null sink and a loopback module.
    PulseAudioLoopback,
    /// Only PipeWire is running: the same modules work through its
    /// PulseAudio compatibility layer.
    PipeWireCompatLoopback,
}

/// Linux system audio, using a PulseAudio (or PipeWire-compatible) null
/// sink.
pub struct LinuxSystemAudio {
    /// Name of the null sink this variant creates and looks for.
    pub sink_name: String,
}

impl LinuxSystemAudio {
    pub fn new() -> (r: LinuxSystemAudio)
        ensures
            r.sink_name@ == "camouflage_sink"@,
    {
        LinuxSystemAudio { sink_name: "camouflage_sink".to_owned() }
    }

    /// Decides how to create the virtual device from which audio servers
    /// are present: PulseAudio is preferred, PipeWire is driven through
    /// its compatibility layer, and with neither there is nothing to do.
    pub fn plan_virtual_device(&self, pulseaudio: bool, pipewire: bool) -> (r: Result<
        LinuxDevicePlan,
        PlatformError,
    >)
        ensures
            pulseaudio ==> r == Result::<LinuxDevicePlan, PlatformError>::Ok(
                LinuxDevicePlan::PulseAudioLoopback,
            ),
            !pulseaudio && pipewire ==> r == Result::<LinuxDevicePlan, PlatformError>::Ok(
                LinuxDevicePlan::PipeWireCompatLoopback,
            ),
            !pulseaudio && !pipewire ==> r == Result::<LinuxDevicePlan, PlatformError>::Err(
                PlatformError::AudioServerMissing,
            ),
    {
        if pulseaudio {
            Ok(LinuxDevicePlan::PulseAudioLoopback)
        } else if pipewire {
            Ok(LinuxDevicePlan::PipeWireCompatLoopback)
        } else {
            Err(PlatformError::AudioServerMissing)
        }
    }

    /// Whether a sink listing mentions this variant's sink: true exactly
    /// when the sink name occurs in the listing as a contiguous run of
    /// bytes.
    pub fn listing_mentions_sink(&self, listing: &[u8]) -> (r: bool)
        ensures
            r == contains_subrange(listing@, vstd::utf8::encode_utf8(self.sink_name@)),
    {
        contains(listing, self.sink_name.as_str().as_bytes())
    }
}

/// How macOS system audio is to be set up, given what is installed.
#[derive(Clone, Copy, Debug, PartialEq, Eq, Structural)]
pub enum MacDevicePlan {
    /// The loopback driver is present: only the multi-output device setup
    /// remains.
    SetupOnly,
    /// The driver is missing but a package manager can install it first.
    InstallThenSetup,
}

/// macOS system audio, using the BlackHole loopback driver.
pub struct MacOSSystemAudio {
    /// Name of the loopback device this variant relies on.
    pub device_name: String,
}

impl MacOSSystemAudio {
    pub fn new() -> (r: MacOSSystemAudio)
        ensures
            r.device_name@ == "BlackHole 2ch"@,
    {
        MacOSSystemAudio { device_name: "BlackHole 2ch".to_owned() }
    }

    /// Decides the setup steps from what is installed: with the driver
    /// present only the device setup remains; without it the driver is
    /// installed first, which needs a package manager.
    pub fn plan_virtual_device(&self, driver_installed: bool, package_manager: bool) -> (r: Result<
        MacDevicePlan,
        PlatformError,
    >)
        ensures
            driver_installed ==> r == Result::<MacDevicePlan, PlatformError>::Ok(
                MacDevicePlan::SetupOnly,
            ),
            !driver_installed && package_manager ==> r == Result::<MacDevicePlan, PlatformError>::Ok(
                MacDevicePlan::InstallThenSetup,
            ),
            !driver_installed && !package_manager ==> r == Result::<
                MacDevicePlan,
                PlatformError,
            >::Err(PlatformError::PackageManagerMissing),
    {
        if driver_installed {
            Ok(MacDevicePlan::SetupOnly)
        } else if package_manager {
            Ok(MacDevicePlan::InstallThenSetup)
        } else {
            Err(PlatformError::PackageManagerMissing)
        }
    }
}

/// Windows system audio; virtual cable setup is manual, so this variant
/// only carries the device name and reports that no device is managed.
pub struct WindowsSystemAudio {
    /// Name this variant would give a virtual device.
    pub device_name: String,
}

impl WindowsSystemAudio {
    pub fn new() -> (r: WindowsSystemAudio)
        ensures
            r.device_name@ == "Camouflage Virtual Audio"@,
    {
        WindowsSystemAudio { device_name: "Camouflage Virtual Audio".to_owned() }
    }

    /// No automated check exists for a manually installed virtual cable,
    /// so no device is ever reported.
    pub fn virtual_device_exists(&self) -> (r: bool)
        ensures
            !r,
    {
        false
    }
}

/// The system audio variants, one per platform.
pub enum PlatformSystemAudio {
    Linux(LinuxSystemAudio),
    MacOs(MacOSSystemAudio),
    Windows(WindowsSystemAudio),
}

/// Returns the system audio variant for the given platform.
pub fn get_system_audio(platform: Platform) -> (r: PlatformSystemAudio)
    ensures
        platform == Platform::Linux ==> (r matches PlatformSystemAudio::Linux(a)
            && a.sink_name@ == "camouflage_sink"@),
        platform == Platform::MacOs ==> (r matches PlatformSystemAudio::MacOs(a)
            && a.device_name@ == "BlackHole 2ch"@),
        platform == Platform::Windows ==> (r matches PlatformSystemAudio::Windows(a)
            && a.device_name@ == "Camouflage Virtual Audio"@),
{
    match platform {
        Platform::Linux => PlatformSystemAudio::Linux(LinuxSystemAudio::new()),
        Platform::MacOs => PlatformSystemAudio::MacOs(MacOSSystemAudio::new()),
        Platform::Windows => PlatformSystemAudio::Windows(WindowsSystemAudio::new()),
    }
}

/// `needle` occurs in `haystack` as a contiguous run.
pub open spec fn contains_subrange(haystack: Seq<u8>, needle: Seq<u8>) -> bool {
    exists|i: int|
        0 <= i <= haystack.len() - needle.len() && #[trigger] haystack.subrange(
            i,
            i + needle.len(),
        ) == needle
}

/// Whether `haystack[at..]` starts with `needle`.
fn matches_at(haystack: &[u8], needle: &[u8], at: usize) -> (r: bool)
    requires
        at + needle@.len() <= haystack@.len(),
    ensures
        r == (haystack@.subrange(at as int, at + needle@.len()) == needle@),
{
    let hlen = haystack.len();
    let mut j: usize = 0;
    while j < needle.len()
        invariant
            at + needle@.len() <= haystack@.len(),
            hlen == haystack@.len(),
            j <= needle@.len(),
            forall|t: int| 0 <= t < j ==> haystack@[at + t] == needle@[t],
        decreases needle@.len() - j,
    {
        if haystack[at + j] != needle[j] {
            proof {
                assert(haystack@.subrange(at as int, at + needle@.len())[j as int] != needle@[
                    j as int]);
            }
            return false;
        }
        j = j + 1;
    }
    proof {
        assert(haystack@.subrange(at as int, at + needle@.len()) =~= needle@);
    }
    true
}

/// Substring search: true exactly when `needle` occurs contiguously in
/// `haystack`.
pub fn contains(haystack: &[u8], needle: &[u8]) -> (r: bool)
    ensures
        r == contains_subrange(haystack@, needle@),
{
    if needle.len() > haystack.len() {
        return false;
    }
    if needle.len() == 0 {
        proof {
            assert(haystack@.subrange(0, 0 + needle@.len() as int) =~= needle@);
        }
        return true;
    }
    let hlen = haystack.len();
    let last = haystack.len() - needle.len();
    let mut i: usize = 0;
    while i <= last
        invariant
            1 <= needle@.len() <= haystack@.len(),
            hlen == haystack@.len(),
            last == haystack@.len() - needle@.len(),
            i <= last + 1,
            forall|t: int|
                0 <= t < i ==> #[trigger] haystack@.subrange(t, t + needle@.len()) != needle@,
        decreases last + 1 - i,
    {
        if matches_at(haystack, needle, i) {
            return true;
        }
        i = i + 1;
    }
    false
}

} // verus!
