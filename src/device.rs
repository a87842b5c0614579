//! Audio endpoints, their classification as Bluetooth, and the audio-mode
//! verdicts drawn from an endpoint's format and from its peak meter.

use vstd::prelude::*;
use crate::text::{contains_str, has_substring, lower_of, to_lower};

verus! {

/// The profile a wireless headset is operating in.
#[derive(Debug, Clone, Copy, PartialEq, Eq, Structural)]
pub enum AudioMode {
    /// High-fidelity stereo output.
    Stereo,
    /// Low-bandwidth mono with the microphone open.
    HandsFree,
    /// Not yet known, or not determinable.
    Unknown,
}

/// The English label of a mode.
pub open spec fn mode_label(m: AudioMode) -> Seq<char> {
    match m {
        AudioMode::Stereo => "Stereo"@,
        AudioMode::HandsFree => "Hands-Free"@,
        AudioMode::Unknown => "Unknown"@,
    }
}

impl AudioMode {
    /// The English label used in logs and messages.
    pub fn to_string(&self) -> (r: String)
        ensures
            r@ == mode_label(*self),
    {
        match self {
            AudioMode::Stereo => String::from_str("Stereo"),
            AudioMode::HandsFree => String::from_str("Hands-Free"),
            AudioMode::Unknown => String::from_str("Unknown"),
        }
    }
}

/// An active audio endpoint as the platform reports it.
#[derive(Debug, Clone)]
pub struct AudioDevice {
    pub id: String,
    pub name: String,
    pub is_bluetooth: bool,
}

/// A render endpoint with its negotiated format and the mode inferred from it.
#[derive(Debug, Clone)]
pub struct BluetoothAudioDevice {
    pub device: AudioDevice,
    pub current_mode: AudioMode,
    pub supports_stereo: bool,
    pub supports_handsfree: bool,
    /// Sample rate of the mix format, in Hz.
    pub sample_rate: Option<u32>,
    /// Channel count of the mix format.
    pub channels: Option<u16>,
}

/// The format heuristic: a low sample rate or a single channel means hands-free.
pub open spec fn format_heuristic(rate: u32, channels: u16) -> AudioMode {
    if rate <= 16000 || channels == 1 {
        AudioMode::HandsFree
    } else {
        AudioMode::Stereo
    }
}

/// The format heuristic where the format may be unknown.
pub open spec fn format_mode(rate: Option<u32>, channels: Option<u16>) -> AudioMode {
    match (rate, channels) {
        (Some(r), Some(c)) => format_heuristic(r, c),
        _ => AudioMode::Unknown,
    }
}

/// Mode from the peak meter: one metered channel means hands-free, two or more
/// mean stereo; a count of zero gives no verdict.
pub open spec fn meter_mode(meter_channels: u32) -> Option<AudioMode> {
    if meter_channels == 1 {
        Some(AudioMode::HandsFree)
    } else if meter_channels >= 2 {
        Some(AudioMode::Stereo)
    } else {
        None
    }
}

/// Infers the mode from a mix format alone.
pub fn mode_from_format(rate: u32, channels: u16) -> (r: AudioMode)
    ensures
        r == format_heuristic(rate, channels),
        r == AudioMode::HandsFree <==> (rate <= 16000 || channels == 1),
        r == AudioMode::Stereo <==> (rate > 16000 && channels != 1),
{
    if rate <= 16000 || channels == 1 {
        AudioMode::HandsFree
    } else {
        AudioMode::Stereo
    }
}

/// Infers the mode from the live peak-meter channel count; a count of zero
/// is inconclusive.
pub fn mode_from_meter(meter_channels: u32) -> (r: Option<AudioMode>)
    ensures
        r == meter_mode(meter_channels),
        meter_channels == 1 ==> r == Some(AudioMode::HandsFree),
        meter_channels >= 2 ==> r == Some(AudioMode::Stereo),
        meter_channels == 0 ==> r is None,
{
    if meter_channels == 1 {
        Some(AudioMode::HandsFree)
    } else if meter_channels >= 2 {
        Some(AudioMode::Stereo)
    } else {
        None
    }
}

/// The session-based fallback: a Bluetooth microphone in use means hands-free.
pub fn detect_mode(bt_mic_in_use: bool) -> (r: AudioMode)
    ensures
        r == (if bt_mic_in_use { AudioMode::HandsFree } else { AudioMode::Stereo }),
{
    if bt_mic_in_use {
        AudioMode::HandsFree
    } else {
        AudioMode::Stereo
    }
}

impl BluetoothAudioDevice {
    /// A device whose format is not yet known.
    pub fn new(device: AudioDevice) -> (r: Self)
        ensures
            r.device == device,
            r.current_mode == AudioMode::Unknown,
            r.supports_stereo,
            r.supports_handsfree,
            r.sample_rate is None,
            r.channels is None,
    {
        BluetoothAudioDevice {
            device,
            current_mode: AudioMode::Unknown,
            supports_stereo: true,
            supports_handsfree: true,
            sample_rate: None,
            channels: None,
        }
    }

    /// Sets `current_mode` from the recorded format; the rest is kept.
    pub fn detect_mode_from_format(&mut self)
        ensures
            final(self).current_mode == format_mode(old(self).sample_rate, old(self).channels),
            final(self).device == old(self).device,
            final(self).supports_stereo == old(self).supports_stereo,
            final(self).supports_handsfree == old(self).supports_handsfree,
            final(self).sample_rate == old(self).sample_rate,
            final(self).channels == old(self).channels,
    {
        match (self.sample_rate, self.channels) {
            (Some(rate), Some(ch)) => {
                self.current_mode = mode_from_format(rate, ch);
            },
            _ => {
                self.current_mode = AudioMode::Unknown;
            },
        }
    }
}

/// Identifier fragments that mark a Bluetooth endpoint (lower case).
pub open spec fn id_marked(id: Seq<char>) -> bool {
    has_substring(id, "bluetooth"@) || has_substring(id, "bth"@) || has_substring(id, "{0000110b"@)
        || has_substring(id, "{0000111e"@)
}

/// Friendly-name fragments that mark a Bluetooth endpoint (lower case).
pub open spec fn name_marked(name: Seq<char>) -> bool {
    has_substring(name, "bluetooth"@) || has_substring(name, "headset"@) || has_substring(
        name,
        "headphone"@,
    ) || has_substring(name, "hands-free"@) || has_substring(name, "handsfree"@) || has_substring(
        name,
        "earbuds"@,
    ) || has_substring(name, "airpods"@) || has_substring(name, "buds"@)
}

/// Case-insensitive Bluetooth classification of an endpoint.
pub open spec fn bluetooth_endpoint(id: Seq<char>, name: Seq<char>) -> bool {
    id_marked(lower_of(id)) || name_marked(lower_of(name))
}

/// Classifies an endpoint as Bluetooth by markers in its identifier or name,
/// compared without regard to case.
pub fn is_bluetooth_endpoint(id: &str, name: &str) -> (r: bool)
    ensures
        r == bluetooth_endpoint(id@, name@),
{
    let idl = to_lower(id);
    let nl = to_lower(name);
    let i = idl.as_str();
    let n = nl.as_str();
    contains_str(i, "bluetooth") || contains_str(i, "bth") || contains_str(i, "{0000110b")
        || contains_str(i, "{0000111e") || contains_str(n, "bluetooth") || contains_str(
        n,
        "headset",
    ) || contains_str(n, "headphone") || contains_str(n, "hands-free") || contains_str(
        n,
        "handsfree",
    ) || contains_str(n, "earbuds") || contains_str(n, "airpods") || contains_str(n, "buds")
}

impl AudioDevice {
    /// An endpoint classified from its identifier and name.
    pub fn classified(id: String, name: String) -> (r: Self)
        ensures
            r.id == id,
            r.name == name,
            r.is_bluetooth == bluetooth_endpoint(id@, name@),
    {
        let is_bluetooth = is_bluetooth_endpoint(id.as_str(), name.as_str());
        AudioDevice { id, name, is_bluetooth }
    }
}

} // verus!
