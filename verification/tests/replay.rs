use brail_recorder::replay::{ReplayBuffer, ReplayConfig, ReplayDuration};

fn config(d: ReplayDuration) -> ReplayConfig {
    let mut c = ReplayConfig::default_in("/tmp/replays".to_string());
    c.duration = d;
    c
}

#[test]
fn durations_and_names() {
    assert_eq!(ReplayDuration::Seconds15.as_seconds(), 15);
    assert_eq!(ReplayDuration::Minutes2.as_seconds(), 120);
    assert_eq!(ReplayDuration::Minutes5.as_seconds(), 300);
    assert_eq!(ReplayDuration::Custom(45).as_seconds(), 45);
    assert_eq!(ReplayDuration::Seconds60.display_name(), "60 seconds");
    assert_eq!(ReplayDuration::Minutes5.display_name(), "5 minutes");
    assert_eq!(ReplayDuration::Custom(45).display_name(), "45 seconds");
    assert_eq!(ReplayDuration::Custom(0).display_name(), "0 seconds");
}

#[test]
fn default_replay_config() {
    let c = ReplayConfig::default_in("D:\\Replays".to_string());
    assert!(!c.enabled);
    assert_eq!(c.duration, ReplayDuration::Seconds30);
    assert_eq!(c.hotkey, "F10");
    assert_eq!(c.save_directory, "D:\\Replays");
}

#[test]
fn capacity_is_duration_times_rate() {
    let b = ReplayBuffer::new(config(ReplayDuration::Seconds30), 60);
    let s = b.get_status();
    assert_eq!(s.max_frames, 1800);
    assert_eq!(s.max_seconds, 30);
    assert_eq!(s.buffer_frames, 0);
    assert!(!s.enabled);
}

#[test]
fn stopped_buffer_ignores_frames() {
    let mut b = ReplayBuffer::new(config(ReplayDuration::Custom(1)), 2);
    b.push_frame(vec![1, 2, 3], 4, 4, 0);
    assert_eq!(b.frame_count(), 0);
}

#[test]
fn rolling_window_keeps_latest_frames() {
    let mut b = ReplayBuffer::new(config(ReplayDuration::Custom(3)), 1);
    b.start();
    for i in 0..7u8 {
        b.push_frame(vec![i; (i as usize) + 1], 8, 6, i as u64);
    }
    assert_eq!(b.frame_count(), 3);
    assert_eq!(b.frame_data(0), &vec![4u8; 5]);
    assert_eq!(b.frame_data(1), &vec![5u8; 6]);
    assert_eq!(b.frame_data(2), &vec![6u8; 7]);
    let s = b.get_status();
    assert!(s.enabled);
    assert_eq!(s.memory_bytes, 18);
    assert_eq!(s.fps, 1);
    b.stop();
    assert_eq!(b.frame_count(), 0);
    assert!(!b.is_running());
}

#[test]
fn export_needs_frames() {
    let mut b = ReplayBuffer::new(config(ReplayDuration::Seconds15), 30);
    assert_eq!(b.export_args("r.mkv"), Err("Replay buffer is empty".to_string()));
    b.start();
    b.push_frame(vec![0; 16], 2, 2, 1);
    b.push_frame(vec![0; 64], 4, 4, 2);
    let args = b.export_args("r.mkv").unwrap();
    let want: Vec<String> = [
        "-y", "-f", "rawvideo", "-pix_fmt", "bgra", "-s", "2x2", "-r", "30", "-i", "pipe:0",
        "-c:v", "libx264", "-preset", "ultrafast", "-crf", "23", "-pix_fmt", "yuv420p", "r.mkv",
    ]
    .iter()
    .map(|s| s.to_string())
    .collect();
    assert_eq!(args, want);
    assert_eq!(b.config().duration, ReplayDuration::Seconds15);
}
