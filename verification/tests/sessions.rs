use brail_recorder::capture::CaptureConfig;
use brail_recorder::performance::{AdaptiveMode, PerformanceMonitor, ProcessTimes, SystemTimes};
use brail_recorder::recording::{
    marker_recording_path, recording_path_from_field, remux_args, FrameTally, RecordingConfig,
};
use brail_recorder::recovery::{session_record, SessionMarker};
use brail_recorder::storage::{FileNameSearch, StorageManager};
use brail_recorder::streaming::{StreamConfig, StreamEngine};

#[test]
fn name_search_proposes_numbered_candidates() {
    let mut search = FileNameSearch::timestamped("Brail_Replay", "2024-05-01_10-20-30", "mkv");
    assert_eq!(search.attempts(), 0);
    assert_eq!(search.candidate(), "Brail_Replay_2024-05-01_10-20-30.mkv");
    search.advance();
    assert_eq!(search.candidate(), "Brail_Replay_2024-05-01_10-20-30_1.mkv");
    search.advance();
    assert_eq!(search.attempts(), 2);
    assert_eq!(search.candidate(), "Brail_Replay_2024-05-01_10-20-30_2.mkv");

    let mut plain = FileNameSearch::new("clip".to_string(), "mp4".to_string());
    assert_eq!(plain.candidate(), "clip.mp4");
    plain.advance();
    assert_eq!(plain.candidate(), "clip_1.mp4");
}

fn is_digits(s: &str, n: usize) -> bool {
    s.len() == n && s.chars().all(|c| c.is_ascii_digit())
}

#[test]
fn safe_filename_is_stamped_with_local_date_and_time() {
    let search = StorageManager::generate_safe_filename("Brail_Screenshot", "png");
    let name = search.candidate();
    let rest = name.strip_prefix("Brail_Screenshot_").unwrap();
    let stamp = rest.strip_suffix(".png").unwrap();
    let parts: Vec<&str> = stamp.split(|c| c == '-' || c == '_').collect();
    assert_eq!(parts.len(), 6);
    assert!(is_digits(parts[0], 4));
    for p in &parts[1..] {
        assert!(is_digits(p, 2));
    }
    assert_eq!(&stamp[4..5], "-");
    assert_eq!(&stamp[10..11], "_");
    assert_eq!(&stamp[13..14], "-");
}

#[test]
fn recording_name_search_uses_format_and_container() {
    let mut config = RecordingConfig::default_in("D:\\Videos".to_string());
    config.filename_format = "Game {date} at {time}".to_string();
    let search = config.output_file_search();
    let name = search.candidate();
    assert!(name.starts_with("Game "));
    assert!(name.ends_with(".mkv"));
    assert!(!name.contains("{date}") && !name.contains("{time}"));
    let stamp = &name["Game ".len()..name.len() - ".mkv".len()];
    let (date, time) = stamp.split_once(" at ").unwrap();
    assert_eq!(date.len(), 10);
    assert_eq!(time.len(), 8);
    assert_eq!(&time[2..3], "-");
}

#[test]
fn unfinished_session_record() {
    let marker = SessionMarker {
        session_id: "abc".into(),
        target_file: "C:\\v\\b.mp4".into(),
        container: "mp4".into(),
        started_at_secs: 0,
        started_at_nanos: 0,
        width: 1280,
        height: 720,
        fps: 30,
        is_active: true,
    };
    let u = session_record(&marker, 4096, "2024-01-01T00:00:00+00:00".to_string());
    assert_eq!(u.session_id, "abc");
    assert_eq!(u.file_path, "C:\\v\\b.mp4");
    assert_eq!(u.file_size_bytes, 4096);
    assert_eq!(u.started_at, "2024-01-01T00:00:00+00:00");
    assert!(u.recoverable);
}

#[test]
fn performance_counters_and_mode() {
    let mut m = PerformanceMonitor::new();
    assert_eq!(m.get_mode(), AdaptiveMode::Balanced);
    m.set_mode(AdaptiveMode::UltraLite);
    assert_eq!(m.get_mode(), AdaptiveMode::UltraLite);
    m.record_frame_captured();
    m.record_frame_captured();
    m.record_frame_dropped();
    assert_eq!(m.frames_captured(), 2);
    assert_eq!(m.frames_dropped(), 1);
    m.record_bytes_written(10);
    m.record_bytes_uploaded(u64::MAX);
    m.record_bytes_uploaded(2);
}

#[test]
fn system_cpu_ticks_between_readings() {
    let mut m = PerformanceMonitor::new();
    assert_eq!(m.system_cpu_ticks(SystemTimes { idle: 100, kernel: 300, user: 200 }), None);
    // 150 kernel ticks (60 of them idle) and 50 user ticks: 140 of 200 busy.
    assert_eq!(m.system_cpu_ticks(SystemTimes { idle: 160, kernel: 450, user: 250 }), Some((140, 200)));
    // No tick passed.
    assert_eq!(m.system_cpu_ticks(SystemTimes { idle: 160, kernel: 450, user: 250 }), None);
    // Counters that went back count as not having moved.
    assert_eq!(m.system_cpu_ticks(SystemTimes { idle: 0, kernel: 460, user: 0 }), Some((10, 10)));
    assert!(m.last_system_times().is_some());
}

#[test]
fn process_cpu_ticks_between_readings() {
    let mut m = PerformanceMonitor::new();
    assert_eq!(m.process_cpu_ticks(ProcessTimes { kernel: 10, user: 20, read_at_ns: 1_000 }), None);
    assert_eq!(
        m.process_cpu_ticks(ProcessTimes { kernel: 15, user: 40, read_at_ns: 501_000 }),
        Some((25, 500_000))
    );
    assert_eq!(
        m.process_cpu_ticks(ProcessTimes { kernel: 15, user: 40, read_at_ns: 400_000 }),
        Some((0, 0))
    );
}

#[test]
fn frame_tally_reports_every_hundredth_drop() {
    let mut t = FrameTally::new();
    let mut reports = 0;
    for i in 0..1000u32 {
        if t.count_frame(i % 3 != 0) {
            reports += 1;
        }
    }
    assert_eq!(t.frames_captured(), 1000);
    assert_eq!(t.frames_dropped(), 334);
    assert_eq!(reports, 3);
    assert!(!t.count_frame(true));
}

#[test]
fn capture_frame_interval() {
    let mut c = CaptureConfig::default();
    assert_eq!(c.frame_interval_ns(), 16_666_666);
    c.fps = 30;
    assert_eq!(c.frame_interval_ns(), 33_333_333);
    c.fps = 1;
    assert_eq!(c.frame_interval_ns(), 1_000_000_000);
}

#[test]
fn stream_counts_stay_consistent() {
    let mut e = StreamEngine::new(StreamConfig::default(), 0);
    e.mark_started("NVIDIA NVENC H.264", 0);
    for i in 0..10 {
        e.update_frame_stats(i % 2 == 0);
    }
    e.mark_started("NVIDIA NVENC H.264", 100);
    e.update_frame_stats(false);
    let s = e.get_stats(200);
    assert_eq!((s.dropped_frames, s.total_frames), (0, 1));
    assert_eq!((s.drop_rate_dropped, s.drop_rate_total), (0, 1));
}

#[test]
fn remux_copies_streams() {
    assert_eq!(
        remux_args("C:\\v\\a.mkv", "C:\\v\\a.mp4"),
        vec!["-i", "C:\\v\\a.mkv", "-c", "copy", "-movflags", "+faststart", "C:\\v\\a.mp4"]
    );
}

#[test]
fn marker_paths_from_json() {
    assert_eq!(marker_recording_path(r#"{"path":"C:\\v\\a.mkv","pid":7}"#), Some("C:\\v\\a.mkv".to_string()));
    assert_eq!(marker_recording_path(r#"{"started":"x"}"#), Some("Unknown".to_string()));
    assert_eq!(marker_recording_path(r#"{"path":12}"#), Some("Unknown".to_string()));
    assert_eq!(marker_recording_path("[1, 2]"), Some("Unknown".to_string()));
    assert_eq!(marker_recording_path("not json"), None);
    assert_eq!(recording_path_from_field(None), None);
    assert_eq!(recording_path_from_field(Some(None)), Some("Unknown".to_string()));
    assert_eq!(recording_path_from_field(Some(Some("p".to_string()))), Some("p".to_string()));
}
