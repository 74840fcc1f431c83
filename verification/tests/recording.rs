use brail_recorder::recording::{format_file_size, ContainerFormat, RecordingConfig, RecordingPipeline, RecordingState};

#[test]
fn container_extensions() {
    assert_eq!(ContainerFormat::Mkv.extension(), "mkv");
    assert_eq!(ContainerFormat::Mp4.extension(), "mp4");
    assert_eq!(ContainerFormat::WebM.extension(), "webm");
}

#[test]
fn default_recording_config() {
    let c = RecordingConfig::default_in("V:\\Brail".to_string());
    assert_eq!(c.container, ContainerFormat::Mkv);
    assert_eq!(c.filename_format, "Brail_{date}_{time}");
    assert!(c.auto_remux_to_mp4);
    assert_eq!(c.output_directory, "V:\\Brail");
    assert_eq!(c.output_stem("2024-05-01", "10-20-30"), "Brail_2024-05-01_10-20-30");
}

#[test]
fn output_stem_replaces_every_placeholder() {
    let mut c = RecordingConfig::default_in(String::new());
    c.filename_format = "{date}-{date}_{time}{tim}".to_string();
    assert_eq!(c.output_stem("D", "T"), "D-D_T{tim}");
}

#[test]
fn remux_target_for_mkv_only() {
    let mut c = RecordingConfig::default_in(String::new());
    assert_eq!(c.remux_target("C:\\v\\a.mkv"), Some("C:\\v\\a.mp4".to_string()));
    assert_eq!(c.remux_target("x.mkv.mkv"), Some("x.mp4.mp4".to_string()));
    c.container = ContainerFormat::Mp4;
    assert_eq!(c.remux_target("a.mkv"), None);
    c.container = ContainerFormat::Mkv;
    c.auto_remux_to_mp4 = false;
    assert_eq!(c.remux_target("a.mkv"), None);
}

#[test]
fn session_life_cycle() {
    let mut p = RecordingPipeline::new(RecordingConfig::default_in(String::new()));
    assert!(!p.is_recording());
    assert_eq!(p.state(), RecordingState::Idle);
    assert_eq!(p.stop(), None);
    p.pause();
    assert!(!p.is_paused());
    assert_eq!(p.start("a.mkv".to_string(), 5_000_000_000), Ok("a.mkv".to_string()));
    assert_eq!(p.state(), RecordingState::Starting);
    assert_eq!(p.start("b.mkv".to_string(), 6_000_000_000), Err("Recording already in progress".to_string()));
    p.mark_recording();
    assert_eq!(p.state(), RecordingState::Recording);
    p.pause();
    assert!(p.is_paused());
    assert_eq!(p.state(), RecordingState::Paused);
    p.resume();
    assert!(!p.is_paused());
    assert_eq!(p.state(), RecordingState::Recording);
    assert_eq!(p.duration_seconds(12_500_000_000), Some(7));
    p.pause();
    assert_eq!(p.stop(), Some("a.mkv".to_string()));
    assert!(!p.is_recording());
    assert!(!p.is_paused());
    assert_eq!(p.state(), RecordingState::Idle);
    assert_eq!(p.stop(), None);
}

#[test]
fn failed_session_keeps_running_until_stopped() {
    let mut p = RecordingPipeline::new(RecordingConfig::default_in(String::new()));
    p.start("a.mkv".to_string(), 0).unwrap();
    p.mark_failed("Failed to init D3D".to_string());
    assert_eq!(p.state(), RecordingState::Error("Failed to init D3D".to_string()));
    assert!(p.is_recording());
    assert_eq!(p.stop(), Some("a.mkv".to_string()));
    assert_eq!(p.duration_seconds(0), Some(0));
}

fn float_size(bytes: u64) -> String {
    if bytes < 1024 {
        format!("{} B", bytes)
    } else if bytes < 1024 * 1024 {
        format!("{:.1} KB", bytes as f64 / 1024.0)
    } else if bytes < 1024 * 1024 * 1024 {
        format!("{:.1} MB", bytes as f64 / (1024.0 * 1024.0))
    } else {
        format!("{:.2} GB", bytes as f64 / (1024.0 * 1024.0 * 1024.0))
    }
}

#[test]
fn file_sizes() {
    assert_eq!(format_file_size(0), "0 B");
    assert_eq!(format_file_size(1023), "1023 B");
    assert_eq!(format_file_size(1024), "1.0 KB");
    assert_eq!(format_file_size(1536), "1.5 KB");
    assert_eq!(format_file_size(5 * 1024 * 1024), "5.0 MB");
    assert_eq!(format_file_size(3 * 1024 * 1024 * 1024 / 2), "1.50 GB");
}

#[test]
fn file_sizes_match_floating_point_formatting() {
    let mut samples: Vec<u64> = Vec::new();
    for b in 0..5000u64 {
        samples.push(b);
    }
    for k in 1..2000u64 {
        samples.push(k * 1024 / 20);
        samples.push(k * 1024 * 1024 / 20 + k);
        samples.push(k * 1024 * 1024 * 1024 / 200);
        samples.push(1024 * 1024 - k);
        samples.push(1024 * 1024 * 1024 - k);
        samples.push(u64::MAX - k * 977);
        samples.push((1u64 << 53) + k);
        samples.push((1u64 << 60) + (k << 6));
    }
    for b in samples {
        assert_eq!(format_file_size(b), float_size(b), "bytes = {}", b);
    }
}
