//! Audio capture settings and the packets that audio capture produces.
//!
//! Volumes are gains between 0.0 and 1.0; they are kept here as the bit
//! patterns of their 32-bit floating-point values, which the audio path
//! turns back into floats.

use vstd::prelude::*;

verus! {

/// The bit pattern of the 32-bit float 1.0, full volume.
pub const FULL_VOLUME_BITS: u32 = 0x3F80_0000;

/// Audio capture settings.
#[derive(Debug, Clone)]
pub struct AudioConfig {
    pub capture_system_audio: bool,
    pub capture_microphone: bool,
    pub system_volume_bits: u32,
    pub mic_volume_bits: u32,
    pub system_muted: bool,
    pub mic_muted: bool,
    pub sample_rate: u32,
    pub channels: u16,
    pub bits_per_sample: u16,
    pub system_device_id: String,
    pub mic_device_id: String,
}

/// `c` holds the default audio settings: system audio on at full volume,
/// microphone off, 48 kHz 16-bit stereo from the default devices.
pub open spec fn is_default_audio(c: AudioConfig) -> bool {
    &&& c.capture_system_audio
    &&& !c.capture_microphone
    &&& c.system_volume_bits == FULL_VOLUME_BITS
    &&& c.mic_volume_bits == FULL_VOLUME_BITS
    &&& !c.system_muted
    &&& !c.mic_muted
    &&& c.sample_rate == 48000
    &&& c.channels == 2
    &&& c.bits_per_sample == 16
    &&& c.system_device_id@ == "default"@
    &&& c.mic_device_id@ == "default"@
}

impl Default for AudioConfig {
    /// System audio on at full volume, microphone off, 48 kHz 16-bit stereo
    /// from the default devices.
    fn default() -> (c: Self)
        ensures
            is_default_audio(c),
    {
        AudioConfig {
            capture_system_audio: true,
            capture_microphone: false,
            system_volume_bits: FULL_VOLUME_BITS,
            mic_volume_bits: FULL_VOLUME_BITS,
            system_muted: false,
            mic_muted: false,
            sample_rate: 48000,
            channels: 2,
            bits_per_sample: 16,
            system_device_id: String::from_str("default"),
            mic_device_id: String::from_str("default"),
        }
    }
}

/// A packet of captured PCM audio.
pub struct AudioPacket {
    pub data: Vec<u8>,
    pub samples: u32,
    pub sample_rate: u32,
    pub channels: u16,
    pub bits_per_sample: u16,
    pub timestamp_ns: u64,
    pub is_microphone: bool,
}

} // verus!
