use brail_recorder::audio::{AudioConfig, FULL_VOLUME_BITS};
use brail_recorder::hardware::{Codec, HardwareEncoder};
use brail_recorder::performance::AdaptiveMode;
use brail_recorder::storage::{numbered_file_name, safe_file_name, AppConfig};

#[test]
fn numbered_names() {
    assert_eq!(numbered_file_name("Brail_2024", 0, "mkv"), "Brail_2024.mkv");
    assert_eq!(numbered_file_name("Brail_2024", 1, "mkv"), "Brail_2024_1.mkv");
    assert_eq!(numbered_file_name("Brail_2024", 12, "mp4"), "Brail_2024_12.mp4");
}

#[test]
fn timestamped_names() {
    assert_eq!(safe_file_name("Brail_Screenshot", "2024-05-01_10-20-30", 0, "png"), "Brail_Screenshot_2024-05-01_10-20-30.png");
    assert_eq!(safe_file_name("Brail_Replay", "2024-05-01_10-20-30", 3, "mkv"), "Brail_Replay_2024-05-01_10-20-30_3.mkv");
}

#[test]
fn candidate_names_never_repeat() {
    let mut seen = std::collections::HashSet::new();
    for c in 0..2000u64 {
        assert!(seen.insert(numbered_file_name("clip", c, "mkv")));
    }
}

#[test]
fn default_settings() {
    let c = AppConfig::default_with_dirs("V\\BrailRecordings".into(), "V\\BrailRecordings\\Replays".into(), "P\\BrailScreenshots".into());
    assert_eq!(c.general.theme, "dark");
    assert_eq!(c.general.replay_dir, "V\\BrailRecordings\\Replays");
    assert_eq!(c.replay.save_dir, "V\\BrailRecordings\\Replays");
    assert!(c.general.minimize_to_tray && !c.general.start_with_windows);
    assert_eq!(c.recording.bitrate_kbps, 12000);
    assert_eq!(c.recording.encoder, HardwareEncoder::Software);
    assert_eq!(c.recording.codec, Codec::H264);
    assert_eq!(c.recording.container, "mkv");
    assert_eq!(c.streaming.bitrate_kbps, 6500);
    assert_eq!(c.streaming.max_reconnect_attempts, 5);
    assert_eq!(c.streaming.reconnect_delay_sec, 3);
    assert!(c.streaming.stream_key_encrypted.is_empty());
    assert_eq!(c.replay.buffer_seconds, 30);
    assert_eq!(f32::from_bits(c.audio.system_volume_bits), 1.0);
    assert_eq!(c.audio.mic_volume_bits, FULL_VOLUME_BITS);
    assert_eq!(c.performance.adaptive_mode, AdaptiveMode::Balanced);
    assert_eq!(c.hotkeys.mic_mute_toggle, "Ctrl+Shift+M");
    assert_eq!(c.hotkeys.pause_toggle, "F8");
}

#[test]
fn default_audio_config() {
    let a = AudioConfig::default();
    assert_eq!(f32::from_bits(a.system_volume_bits), 1.0);
    assert_eq!(f32::from_bits(a.mic_volume_bits), 1.0);
    assert!(a.capture_system_audio && !a.capture_microphone);
    assert_eq!((a.sample_rate, a.channels, a.bits_per_sample), (48000, 2, 16));
}
