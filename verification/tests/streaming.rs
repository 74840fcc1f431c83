use brail_recorder::streaming::{
    stream_endpoint, youtube_presets, StreamConfig, StreamEngine, StreamHealthStatus,
    StreamPlatform, StreamProfile, StreamQualityPreset,
};

const SECOND: u64 = 1_000_000_000;

#[test]
fn platform_urls_and_names() {
    assert_eq!(StreamPlatform::YouTube.default_server_url(), "rtmp://a.rtmp.youtube.com/live2");
    assert_eq!(StreamPlatform::Twitch.default_server_url(), "rtmp://live.twitch.tv/app");
    assert_eq!(StreamPlatform::Facebook.default_server_url(), "rtmps://live-api-s.facebook.com:443/rtmp");
    assert_eq!(StreamPlatform::CustomRtmp.default_server_url(), "");
    assert_eq!(StreamPlatform::CustomSrt.display_name(), "Custom SRT");
    assert_eq!(StreamPlatform::CustomRtmp.display_name(), "Custom RTMP");
}

#[test]
fn quality_presets() {
    assert_eq!(StreamQualityPreset::UltraLow.resolution(), (640, 360));
    assert_eq!(StreamQualityPreset::Ultra.resolution(), (3840, 2160));
    assert_eq!(StreamQualityPreset::Custom.resolution(), (1920, 1080));
    assert_eq!(StreamQualityPreset::Low.fps(), 30);
    assert_eq!(StreamQualityPreset::High.fps(), 60);
    assert_eq!(StreamQualityPreset::Balanced.recommended_bitrate_kbps(), 4500);
    assert_eq!(StreamQualityPreset::Ultra.recommended_bitrate_kbps(), 28000);
    assert_eq!(StreamQualityPreset::High.recommended_bitrate_kbps(), 13000);
    assert_eq!(StreamQualityPreset::FullHD.recommended_bitrate_kbps(), 6500);
    assert_eq!(StreamQualityPreset::Low.recommended_bitrate_kbps(), 1500);
    assert_eq!(StreamQualityPreset::UltraLow.recommended_bitrate_kbps(), 1000);
    assert_eq!(StreamQualityPreset::FullHD.display_name(), "Full HD (1080p60)");
}

#[test]
fn default_profile_and_config() {
    let p = StreamProfile::default();
    assert_eq!(p.name, "YouTube 1080p60");
    assert_eq!((p.width, p.height, p.fps, p.bitrate_kbps), (1920, 1080, 60, 6500));
    assert_eq!(p.audio_bitrate_kbps, 192);
    assert_eq!(p.codec, "h264");
    let c = StreamConfig::default();
    assert!(c.auto_reconnect);
    assert_eq!(c.reconnect_delay_seconds, 5);
    assert_eq!(c.max_reconnect_attempts, 10);
    assert!(c.stream_key.is_empty());
}

#[test]
fn youtube_preset_list() {
    let v = youtube_presets();
    assert_eq!(v.len(), 8);
    assert_eq!(v[0].name, "YouTube 720p30");
    assert_eq!(v[0].bitrate_kbps, 2500);
    assert_eq!(v[4].name, "YouTube 1440p30");
    assert_eq!(v[4].bitrate_kbps, 9000);
    assert_eq!(v[7].quality_preset, StreamQualityPreset::Ultra);
    assert_eq!(v[7].fps, 60);
    assert_eq!((v[7].bitrate_kbps, v[7].audio_bitrate_kbps), (28000, 320));
    assert_eq!((v[5].bitrate_kbps, v[5].audio_bitrate_kbps), (13000, 256));
    assert_eq!((v[3].bitrate_kbps, v[3].audio_bitrate_kbps), (6500, 192));
    assert_eq!((v[1].bitrate_kbps, v[1].audio_bitrate_kbps), (4500, 160));
    assert_eq!(v[6].audio_bitrate_kbps, 128);
    assert!(v.iter().all(|p| p.server_url == "rtmp://a.rtmp.youtube.com/live2" && p.audio_sample_rate == 48000));
}

fn engine(server: &str, key: &str) -> StreamEngine {
    let mut c = StreamConfig::default();
    c.profile.server_url = server.to_string();
    c.stream_key = key.to_string();
    StreamEngine::new(c, 0)
}

#[test]
fn rtmp_url_joins_with_one_slash() {
    assert_eq!(engine("rtmp://a.rtmp.youtube.com/live2", "abcd").build_rtmp_url(), "rtmp://a.rtmp.youtube.com/live2/abcd");
    assert_eq!(engine("rtmp://host/app/", "k").build_rtmp_url(), "rtmp://host/app/k");
}

#[test]
fn endpoints_of_ingest_urls() {
    assert_eq!(stream_endpoint("rtmp://a.rtmp.youtube.com/live2"), ("a.rtmp.youtube.com".to_string(), 1935));
    assert_eq!(stream_endpoint("rtmps://live-api-s.facebook.com:443/rtmp"), ("live-api-s.facebook.com".to_string(), 443));
    assert_eq!(stream_endpoint("rtmps://secure.example/app"), ("secure.example".to_string(), 443));
    assert_eq!(stream_endpoint("rtmp://host:99999/x"), ("host".to_string(), 1935));
    assert_eq!(stream_endpoint("rtmp://host:+80/x"), ("host".to_string(), 80));
    assert_eq!(stream_endpoint("rtmp://host:/x"), ("host".to_string(), 1935));
    assert_eq!(stream_endpoint("rtmp://rtmp://host/app"), ("host".to_string(), 1935));
    assert_eq!(stream_endpoint("host.only"), ("host.only".to_string(), 1935));
}

#[test]
fn new_engine_is_disconnected() {
    let mut e = engine("rtmp://h/app", "k");
    assert!(!e.is_running());
    let s = e.get_stats(SECOND / 10);
    assert!(!s.is_live);
    assert_eq!(s.health, StreamHealthStatus::Disconnected);
    assert_eq!(s.network_status, "Disconnected");
    assert_eq!(s.resolution, "1920x1080");
}

#[test]
fn started_stream_reports_duration_and_settings() {
    let mut e = engine("rtmp://h/app", "k");
    e.mark_started("NVIDIA NVENC H.264", 10 * SECOND);
    assert!(e.is_running());
    let s = e.get_stats(13 * SECOND + 5);
    assert!(s.is_live);
    assert_eq!(s.duration_seconds, 3);
    assert_eq!(s.encoder_name, "NVIDIA NVENC H.264");
    assert_eq!(s.resolution, "1920x1080");
    assert_eq!(s.bitrate_kbps, 6500);
    assert_eq!(s.fps, 60);
}

#[test]
fn health_follows_drop_rate() {
    let mut e = engine("rtmp://h/app", "k");
    e.mark_started("x", 0);
    // 6500 kbit/s target: 750_000 bytes per second is above 80 % of it.
    e.record_bytes_sent(750_000);
    for i in 0..100 {
        e.update_frame_stats(i < 6);
    }
    let s = e.get_stats(SECOND);
    assert_eq!((s.dropped_frames, s.total_frames), (6, 100));
    assert_eq!(s.health, StreamHealthStatus::Critical);
    assert_eq!(s.network_status, "Critical");
    let mut e = engine("rtmp://h/app", "k");
    e.mark_started("x", 0);
    for i in 0..100 {
        e.update_frame_stats(i < 3);
    }
    assert_eq!(e.get_stats(SECOND / 10).health, StreamHealthStatus::Poor);
    let mut e = engine("rtmp://h/app", "k");
    e.mark_started("x", 0);
    for i in 0..100 {
        e.update_frame_stats(i < 1);
    }
    assert_eq!(e.get_stats(SECOND / 10).health, StreamHealthStatus::Fair);
    let mut e = engine("rtmp://h/app", "k");
    e.mark_started("x", 0);
    for i in 0..200 {
        e.update_frame_stats(i < 1);
    }
    // exactly 0.5 % is not above the threshold; no upload measured yet, so below target
    assert_eq!(e.get_stats(SECOND / 10).health, StreamHealthStatus::Fair);
}

#[test]
fn health_follows_upload_speed() {
    let mut e = engine("rtmp://h/app", "k");
    e.mark_started("x", 0);
    e.record_bytes_sent(750_000);
    let s = e.get_stats(SECOND);
    assert_eq!((s.upload_bytes, s.upload_window_ns), (750_000, SECOND));
    assert_eq!(s.health, StreamHealthStatus::Excellent);
    // the window was restarted: a short window keeps no measurement
    let s = e.get_stats(SECOND + SECOND / 4);
    assert_eq!(s.upload_window_ns, 0);
    assert_eq!(s.health, StreamHealthStatus::Fair);
    // 812_499 bytes over a 1.25 s window is below 80 % of 6500 kbit/s
    e.record_bytes_sent(812_499);
    let s = e.get_stats(2 * SECOND + SECOND / 4);
    assert_eq!(s.health, StreamHealthStatus::Fair);
    e.record_bytes_sent(812_500);
    let s = e.get_stats(3 * SECOND + SECOND / 4);
    assert_eq!(s.health, StreamHealthStatus::Excellent);
}

#[test]
fn stopped_stream_is_disconnected() {
    let mut e = engine("rtmp://h/app", "k");
    e.mark_started("x", 0);
    e.record_bytes_sent(750_000);
    e.mark_stopped();
    assert!(!e.is_running());
    let s = e.get_stats(5 * SECOND);
    assert_eq!(s.health, StreamHealthStatus::Disconnected);
    assert_eq!(s.network_status, "Disconnected");
}

#[test]
fn restart_resets_frame_counts_but_keeps_drop_rate() {
    let mut e = engine("rtmp://h/app", "k");
    e.mark_started("x", 0);
    e.update_frame_stats(true);
    e.mark_stopped();
    e.mark_started("y", SECOND);
    let s = e.get_stats(SECOND + 1);
    assert_eq!((s.dropped_frames, s.total_frames), (0, 0));
    assert_eq!((s.drop_rate_dropped, s.drop_rate_total), (1, 1));
    assert_eq!(s.health, StreamHealthStatus::Critical);
}

#[test]
fn update_config_replaces_settings() {
    let mut e = engine("rtmp://h/app", "k");
    let mut c = StreamConfig::default();
    c.stream_key = "new".to_string();
    e.update_config(c);
    assert_eq!(e.config().stream_key, "new");
    assert_eq!(e.build_rtmp_url(), "rtmp://a.rtmp.youtube.com/live2/new");
}
