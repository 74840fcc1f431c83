use brail_recorder::capture::{is_offered_window_title, CaptureConfig, CaptureSource};
use brail_recorder::hotkeys::HotkeyManager;
use brail_recorder::performance::{adaptive_mode_from_name, adaptive_mode_for_lowercase, filetime_to_u64, health_status, AdaptiveMode};
use brail_recorder::recovery::{marker_file_name, recovered_path, unfinished_session, SessionMarker};
use brail_recorder::text::decimal_string;

#[test]
fn adaptive_modes_by_name() {
    assert_eq!(adaptive_mode_from_name("UltraLite"), AdaptiveMode::UltraLite);
    assert_eq!(adaptive_mode_from_name("ULTRA_LITE"), AdaptiveMode::UltraLite);
    assert_eq!(adaptive_mode_from_name("Low_End"), AdaptiveMode::LowEnd);
    assert_eq!(adaptive_mode_from_name("lowend"), AdaptiveMode::LowEnd);
    assert_eq!(adaptive_mode_from_name("Balanced"), AdaptiveMode::Balanced);
    assert_eq!(adaptive_mode_from_name("QUALITY"), AdaptiveMode::Quality);
    assert_eq!(adaptive_mode_from_name("streaming"), AdaptiveMode::Streaming);
    assert_eq!(adaptive_mode_from_name("turbo"), AdaptiveMode::Custom);
    assert_eq!(adaptive_mode_for_lowercase("Balanced"), AdaptiveMode::Custom);
    assert_eq!(AdaptiveMode::default(), AdaptiveMode::Balanced);
}

#[test]
fn filetimes_and_health() {
    assert_eq!(filetime_to_u64(0, 5), 5);
    assert_eq!(filetime_to_u64(1, 0), 1 << 32);
    assert_eq!(filetime_to_u64(0xffff_ffff, 0xffff_ffff), u64::MAX);
    assert_eq!(health_status(0), "Optimal");
    assert_eq!(health_status(1), "Moderate");
    assert_eq!(health_status(3), "Strained");
}

fn sorted_by_id(mut v: Vec<brail_recorder::hotkeys::HotkeyDefinition>) -> Vec<brail_recorder::hotkeys::HotkeyDefinition> {
    v.sort_by_key(|h| h.id);
    v
}

#[test]
fn shortcuts() {
    let mut m = HotkeyManager::new();
    let keys = sorted_by_id(m.get_hotkeys());
    assert_eq!(keys.len(), 6);
    let ids: Vec<i32> = keys.iter().map(|k| k.id).collect();
    assert_eq!(ids, vec![1, 2, 3, 4, 5, 6]);
    assert_eq!(keys[0].key, "F9");
    assert_eq!(keys[1].key, "F11");
    assert_eq!(keys[2].key, "F10");
    assert_eq!(keys[3].key, "F12");
    assert_eq!(keys[4].action, "mic_mute_toggle");
    assert_eq!(keys[4].key, "M");
    assert_eq!(keys[4].modifiers, vec!["Ctrl".to_string(), "Shift".to_string()]);
    assert!(keys.iter().all(|k| !k.registered));
    assert_eq!(m.register_all(), Ok(()));
    assert!(m.get_hotkeys().iter().all(|k| k.registered));
    m.unregister_all();
    let after = sorted_by_id(m.get_hotkeys());
    assert_eq!(after.len(), 6);
    assert!(after.iter().all(|k| !k.registered));
    assert_eq!(after[5].name, "Pause / Resume Recording");
    assert_eq!(after[5].key, "F8");
}

fn marker(secs: i64) -> SessionMarker {
    SessionMarker {
        session_id: "s1".into(),
        target_file: "C:\\v\\a.mkv".into(),
        container: "mkv".into(),
        started_at_secs: secs,
        started_at_nanos: 0,
        width: 1920,
        height: 1080,
        fps: 60,
        is_active: true,
    }
}

#[test]
fn crash_markers() {
    assert_eq!(marker_file_name("abc"), "abc.session.json");
    let u = unfinished_session(&marker(0), 42).unwrap();
    assert_eq!(u.started_at, "1970-01-01T00:00:00+00:00");
    assert_eq!(u.file_size_bytes, 42);
    assert_eq!(u.session_id, "s1");
    assert!(u.recoverable);
    let v = unfinished_session(&marker(1431648000), 1).unwrap();
    assert_eq!(v.started_at, "2015-05-15T00:00:00+00:00");
    assert!(unfinished_session(&marker(0), 0).is_none());
    assert!(unfinished_session(&marker(i64::MAX), 5).is_none());
    assert_eq!(recovered_path(&marker(0), true), Ok("C:\\v\\a.mkv".to_string()));
    assert_eq!(recovered_path(&marker(0), false), Err("Recorded file no longer exists".to_string()));
}

#[test]
fn capture_settings() {
    let c = CaptureConfig::default();
    assert!(matches!(c.source, CaptureSource::Monitor { hmonitor: 0, ref name } if name == "Primary"));
    assert_eq!((c.output_width, c.output_height, c.fps), (1920, 1080, 60));
    assert!(c.capture_cursor && !c.highlight_cursor);
    assert!(is_offered_window_title("Game Window"));
    assert!(!is_offered_window_title(""));
    assert!(!is_offered_window_title("Program Manager"));
    assert!(!is_offered_window_title("Windows Settings"));
    assert!(!is_offered_window_title("Microsoft Text Input Application"));
}

#[test]
fn decimal_rendering() {
    for n in [0u64, 7, 10, 99, 100, 12345, u64::MAX] {
        assert_eq!(decimal_string(n), n.to_string());
    }
}
