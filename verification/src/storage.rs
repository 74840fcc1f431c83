//! Settings and file naming: the application settings with their defaults,
//! and collision-free names for recordings, replays and screenshots.

use vstd::prelude::*;
use crate::audio::FULL_VOLUME_BITS;
use crate::hardware::{zero_padded, Codec, HardwareEncoder};
use crate::performance::AdaptiveMode;
use crate::text::{
    all_digits, decimal, digit_char, is_ascii_digit, lemma_decimal_digits, lemma_decimal_injective, push_char,
    push_decimal,
};

verus! {

/// A file name made of a stem, a counter (left out when zero) and an
/// extension: `STEM.EXT` for counter zero, `STEM_COUNTER.EXT` otherwise.
pub open spec fn numbered_name(stem: Seq<char>, counter: nat, ext: Seq<char>) -> Seq<char> {
    if counter == 0 {
        stem + seq!['.'] + ext
    } else {
        stem + seq!['_'] + decimal(counter) + seq!['.'] + ext
    }
}

/// The name of the `counter`-th candidate for a file: `STEM.EXT`, then
/// `STEM_1.EXT`, `STEM_2.EXT` and so on.
pub fn numbered_file_name(stem: &str, counter: u64, ext: &str) -> (name: String)
    ensures
        name@ == numbered_name(stem@, counter as nat, ext@),
{
    let mut name = String::from_str(stem);
    if counter > 0 {
        push_char(&mut name, '_');
        push_decimal(&mut name, counter);
    }
    push_char(&mut name, '.');
    name.append(ext);
    name
}

/// The name of a timestamped file: `PREFIX_TIMESTAMP.EXT`, then
/// `PREFIX_TIMESTAMP_1.EXT`, `PREFIX_TIMESTAMP_2.EXT` and so on.
pub open spec fn timestamped_name(prefix: Seq<char>, timestamp: Seq<char>, counter: nat, ext: Seq<char>) -> Seq<char> {
    numbered_name(prefix + seq!['_'] + timestamp, counter, ext)
}

/// The `counter`-th candidate name for a timestamped file.
pub fn safe_file_name(prefix: &str, timestamp: &str, counter: u64, ext: &str) -> (name: String)
    ensures
        name@ == timestamped_name(prefix@, timestamp@, counter as nat, ext@),
{
    let mut stem = String::from_str(prefix);
    push_char(&mut stem, '_');
    stem.append(timestamp);
    numbered_file_name(stem.as_str(), counter, ext)
}

/// Law of file naming: the candidate names for one stem and extension are
/// pairwise distinct, so trying counters in turn never offers a name twice.
pub proof fn law_numbered_names_distinct(stem: Seq<char>, ext: Seq<char>, a: nat, b: nat)
    requires
        a != b,
    ensures
        numbered_name(stem, a, ext) != numbered_name(stem, b, ext),
{
    lemma_decimal_digits(a);
    lemma_decimal_digits(b);
    let na = numbered_name(stem, a, ext);
    let nb = numbered_name(stem, b, ext);
    if a == 0 || b == 0 {
        assert(na.len() != nb.len());
    } else {
        let da = decimal(a);
        let db = decimal(b);
        let base: int = stem.len() as int + 1;
        if na == nb {
            if da.len() < db.len() {
                assert(na[base + da.len() as int] == '.');
                assert(nb[base + da.len() as int] == db[da.len() as int]);
                assert(is_ascii_digit(db[da.len() as int]));
            } else if db.len() < da.len() {
                assert(nb[base + db.len() as int] == '.');
                assert(na[base + db.len() as int] == da[db.len() as int]);
                assert(is_ascii_digit(da[db.len() as int]));
            } else {
                assert forall|i: int| 0 <= i < da.len() implies da[i] == db[i] by {
                    assert(na[base + i] == da[i]);
                    assert(nb[base + i] == db[i]);
                }
                assert(da =~= db);
                lemma_decimal_injective(a, b);
            }
        }
    }
}


/// General settings.
#[derive(Debug, Clone)]
pub struct GeneralConfig {
    pub recording_dir: String,
    pub replay_dir: String,
    pub screenshot_dir: String,
    pub minimize_to_tray: bool,
    pub start_with_windows: bool,
    pub check_for_updates: bool,
    pub theme: String,
}

/// Recording settings as the settings page holds them.
#[derive(Debug, Clone)]
pub struct RecordingSettings {
    pub width: u32,
    pub height: u32,
    pub fps: u32,
    pub encoder: HardwareEncoder,
    pub codec: Codec,
    pub bitrate_kbps: u32,
    pub container: String,
    pub auto_remux_to_mp4: bool,
    pub capture_cursor: bool,
    pub highlight_cursor: bool,
    pub monitor_id: String,
    pub custom_resolution: bool,
}

/// Streaming settings as the settings page holds them; the stream key is
/// kept encrypted, and in clear only in memory.
#[derive(Debug, Clone)]
pub struct StreamingConfig {
    pub platform: String,
    pub server_url: String,
    pub stream_key_encrypted: Vec<u8>,
    pub stream_key_cached: String,
    pub bitrate_kbps: u32,
    pub width: u32,
    pub height: u32,
    pub fps: u32,
    pub encoder: HardwareEncoder,
    pub auto_reconnect: bool,
    pub max_reconnect_attempts: u32,
    pub reconnect_delay_sec: u32,
}

/// Instant replay settings as the settings page holds them.
#[derive(Debug, Clone)]
pub struct ReplayConfig {
    pub enabled: bool,
    pub buffer_seconds: u32,
    pub save_dir: String,
}

/// Audio settings; volumes are the bit patterns of 32-bit float gains.
#[derive(Debug, Clone)]
pub struct AudioSettings {
    pub system_audio_enabled: bool,
    pub mic_enabled: bool,
    pub system_volume_bits: u32,
    pub mic_volume_bits: u32,
    pub system_device_id: String,
    pub mic_device_id: String,
    pub sample_rate: u32,
}

/// Performance settings.
#[derive(Debug, Clone)]
pub struct PerformanceSettings {
    pub adaptive_mode: AdaptiveMode,
    pub low_overhead_mode: bool,
    pub preview_enabled: bool,
    pub target_fps: u32,
}

/// Global shortcut settings.
#[derive(Debug, Clone)]
pub struct HotkeyConfig {
    pub record_toggle: String,
    pub stream_toggle: String,
    pub replay_save: String,
    pub screenshot: String,
    pub mic_mute_toggle: String,
    pub pause_toggle: String,
}

/// All application settings.
#[derive(Debug, Clone)]
pub struct AppConfig {
    pub general: GeneralConfig,
    pub recording: RecordingSettings,
    pub streaming: StreamingConfig,
    pub replay: ReplayConfig,
    pub audio: AudioSettings,
    pub performance: PerformanceSettings,
    pub hotkeys: HotkeyConfig,
}

/// `c` holds the default settings with the given folders.
pub open spec fn is_default_config(
    c: AppConfig,
    recording_dir: Seq<char>,
    replay_dir: Seq<char>,
    screenshot_dir: Seq<char>,
) -> bool {
    &&& c.general.recording_dir@ == recording_dir
    &&& c.general.replay_dir@ == replay_dir
    &&& c.general.screenshot_dir@ == screenshot_dir
    &&& c.general.minimize_to_tray
    &&& !c.general.start_with_windows
    &&& c.general.check_for_updates
    &&& c.general.theme@ == "dark"@
    &&& c.recording.width == 1920
    &&& c.recording.height == 1080
    &&& c.recording.fps == 60
    &&& c.recording.encoder == HardwareEncoder::Software
    &&& c.recording.codec == Codec::H264
    &&& c.recording.bitrate_kbps == 12000
    &&& c.recording.container@ == "mkv"@
    &&& c.recording.auto_remux_to_mp4
    &&& c.recording.capture_cursor
    &&& !c.recording.highlight_cursor
    &&& c.recording.monitor_id@ == "primary"@
    &&& !c.recording.custom_resolution
    &&& c.streaming.platform@ == "youtube"@
    &&& c.streaming.server_url@ == "rtmp://a.rtmp.youtube.com/live2"@
    &&& c.streaming.stream_key_encrypted@.len() == 0
    &&& c.streaming.stream_key_cached@.len() == 0
    &&& c.streaming.bitrate_kbps == 6500
    &&& c.streaming.width == 1920
    &&& c.streaming.height == 1080
    &&& c.streaming.fps == 60
    &&& c.streaming.encoder == HardwareEncoder::Software
    &&& c.streaming.auto_reconnect
    &&& c.streaming.max_reconnect_attempts == 5
    &&& c.streaming.reconnect_delay_sec == 3
    &&& c.replay.enabled
    &&& c.replay.buffer_seconds == 30
    &&& c.replay.save_dir@ == replay_dir
    &&& c.audio.system_audio_enabled
    &&& !c.audio.mic_enabled
    &&& c.audio.system_volume_bits == FULL_VOLUME_BITS
    &&& c.audio.mic_volume_bits == FULL_VOLUME_BITS
    &&& c.audio.system_device_id@ == "default"@
    &&& c.audio.mic_device_id@ == "default"@
    &&& c.audio.sample_rate == 48000
    &&& c.performance.adaptive_mode == AdaptiveMode::Balanced
    &&& c.performance.low_overhead_mode
    &&& c.performance.preview_enabled
    &&& c.performance.target_fps == 60
    &&& c.hotkeys.record_toggle@ == "F9"@
    &&& c.hotkeys.stream_toggle@ == "F11"@
    &&& c.hotkeys.replay_save@ == "F10"@
    &&& c.hotkeys.screenshot@ == "F12"@
    &&& c.hotkeys.mic_mute_toggle@ == "Ctrl+Shift+M"@
    &&& c.hotkeys.pause_toggle@ == "F8"@
}

impl AppConfig {
    /// The default settings, with recordings in `recording_dir`, replays in
    /// `replay_dir` and screenshots in `screenshot_dir`: 1080p60 MKV at
    /// 12 Mbit/s remuxed to MP4, YouTube streaming at 6.5 Mbit/s, a 30 s
    /// replay, system audio on, the balanced mode and the F8 to F12 keys.
    pub fn default_with_dirs(recording_dir: String, replay_dir: String, screenshot_dir: String) -> (c: AppConfig)
        ensures
            is_default_config(c, recording_dir@, replay_dir@, screenshot_dir@),
    {
        let replay_save_dir = replay_dir.clone();
        AppConfig {
            general: GeneralConfig {
                recording_dir,
                replay_dir,
                screenshot_dir,
                minimize_to_tray: true,
                start_with_windows: false,
                check_for_updates: true,
                theme: String::from_str("dark"),
            },
            recording: RecordingSettings {
                width: 1920,
                height: 1080,
                fps: 60,
                encoder: HardwareEncoder::Software,
                codec: Codec::H264,
                bitrate_kbps: 12000,
                container: String::from_str("mkv"),
                auto_remux_to_mp4: true,
                capture_cursor: true,
                highlight_cursor: false,
                monitor_id: String::from_str("primary"),
                custom_resolution: false,
            },
            streaming: StreamingConfig {
                platform: String::from_str("youtube"),
                server_url: String::from_str("rtmp://a.rtmp.youtube.com/live2"),
                stream_key_encrypted: Vec::new(),
                stream_key_cached: String::new(),
                bitrate_kbps: 6500,
                width: 1920,
                height: 1080,
                fps: 60,
                encoder: HardwareEncoder::Software,
                auto_reconnect: true,
                max_reconnect_attempts: 5,
                reconnect_delay_sec: 3,
            },
            replay: ReplayConfig { enabled: true, buffer_seconds: 30, save_dir: replay_save_dir },
            audio: AudioSettings {
                system_audio_enabled: true,
                mic_enabled: false,
                system_volume_bits: FULL_VOLUME_BITS,
                mic_volume_bits: FULL_VOLUME_BITS,
                system_device_id: String::from_str("default"),
                mic_device_id: String::from_str("default"),
                sample_rate: 48000,
            },
            performance: PerformanceSettings {
                adaptive_mode: AdaptiveMode::Balanced,
                low_overhead_mode: true,
                preview_enabled: true,
                target_fps: 60,
            },
            hotkeys: HotkeyConfig {
                record_toggle: String::from_str("F9"),
                stream_toggle: String::from_str("F11"),
                replay_save: String::from_str("F10"),
                screenshot: String::from_str("F12"),
                mic_mute_toggle: String::from_str("Ctrl+Shift+M"),
                pause_toggle: String::from_str("F8"),
            },
        }
    }
}


/// Where the settings are kept: the path of the settings file.
pub struct StorageManager {
    config_path: String,
}

impl StorageManager {
    /// A manager for the settings file at `config_path`.
    pub fn new_at(config_path: String) -> (m: StorageManager)
        ensures
            m.config_path() == config_path,
    {
        StorageManager { config_path }
    }

    /// The path of the settings file.
    pub closed spec fn config_path(&self) -> String {
        self.config_path
    }

    /// The path of the settings file.
    pub fn config_file(&self) -> (p: &String)
        ensures
            *p == self.config_path(),
    {
        &self.config_path
    }

    /// A search for a free name for a new file stamped with the local date and
    /// time read from the clock: its candidates are `PREFIX_DATE_TIME.EXT`, then
    /// `PREFIX_DATE_TIME_1.EXT`, `PREFIX_DATE_TIME_2.EXT` and so on, with the
    /// date as `YYYY-MM-DD` and the time as `HH-MM-SS`. Whoever can see the
    /// folder takes the first candidate that is not there yet.
    pub fn generate_safe_filename(prefix: &str, ext: &str) -> (search: FileNameSearch)
        ensures
            exists|date: Seq<char>, time: Seq<char>|
                is_date_text(date) && is_time_text(time)
                && search.stem() == prefix@ + seq!['_'] + date + seq!['_'] + time,
            search.ext() == ext@,
            search.counter() == 0,
    {
        let (date, time) = local_date_and_time();
        let mut timestamp = date;
        push_char(&mut timestamp, '_');
        timestamp.append(time.as_str());
        let search = FileNameSearch::timestamped(prefix, timestamp.as_str(), ext);
        assert(search.stem() == prefix@ + seq!['_'] + date@ + seq!['_'] + time@);
        search
    }
}

/// A number below one hundred in two decimal digits, zero first, as chrono
/// writes `%m`, `%d`, `%H`, `%M` and `%S`.
pub open spec fn two_digits(n: nat) -> Seq<char> {
    seq![digit_char(n / 10), digit_char(n % 10)]
}

/// A year as chrono writes `%Y`: four digits, zero first, from 0 to 9999;
/// a `+` and the digits after 9999; a `-` and at least four digits before 0.
pub open spec fn year_text(year: int) -> Seq<char> {
    if 0 <= year <= 9999 {
        zero_padded(decimal(year as nat), 4)
    } else if year > 9999 {
        seq!['+'] + decimal(year as nat)
    } else {
        seq!['-'] + zero_padded(decimal((-year) as nat), 4)
    }
}

/// A date written `%Y-%m-%d`.
pub open spec fn date_text(year: int, month: nat, day: nat) -> Seq<char> {
    year_text(year) + seq!['-'] + two_digits(month) + seq!['-'] + two_digits(day)
}

/// A time of day written `%H-%M-%S`.
pub open spec fn time_text(hour: nat, minute: nat, second: nat) -> Seq<char> {
    two_digits(hour) + seq!['-'] + two_digits(minute) + seq!['-'] + two_digits(second)
}

/// `t` is the `%Y-%m-%d` text of some calendar date.
pub open spec fn is_date_text(t: Seq<char>) -> bool {
    exists|year: int, month: nat, day: nat|
        1 <= month <= 12 && 1 <= day <= 31 && t == #[trigger] date_text(year, month, day)
}

/// `t` is the `%H-%M-%S` text of some time of day (a leap second reads 60).
pub open spec fn is_time_text(t: Seq<char>) -> bool {
    exists|hour: nat, minute: nat, second: nat|
        hour < 24 && minute < 60 && second < 61 && t == #[trigger] time_text(hour, minute, second)
}

/// Reads the local clock once with chrono's `Local::now()` and formats that
/// instant with `%Y-%m-%d` and with `%H-%M-%S`. Which date and time come
/// back depends on the clock and the time zone of the machine; what is
/// stated is their form, which holds of every instant.
#[verifier::external_body]
pub(crate) fn local_date_and_time() -> (r: (String, String))
    ensures
        is_date_text(r.0@),
        is_time_text(r.1@),
{
    let now = chrono::Local::now();
    (now.format("%Y-%m-%d").to_string(), now.format("%H-%M-%S").to_string())
}

/// A search for a file name that is not taken yet: the candidates are
/// `STEM.EXT`, `STEM_1.EXT`, `STEM_2.EXT` and so on, tried in turn.
pub struct FileNameSearch {
    stem: String,
    ext: String,
    counter: u64,
}

impl FileNameSearch {
    /// The part of every candidate before the counter.
    pub closed spec fn stem(&self) -> Seq<char> {
        self.stem@
    }

    /// The extension of every candidate.
    pub closed spec fn ext(&self) -> Seq<char> {
        self.ext@
    }

    /// How many candidates were passed over so far.
    pub closed spec fn counter(&self) -> nat {
        self.counter as nat
    }

    /// A search that starts at `STEM.EXT`.
    pub fn new(stem: String, ext: String) -> (s: Self)
        ensures
            s.stem() == stem@,
            s.ext() == ext@,
            s.counter() == 0,
    {
        FileNameSearch { stem, ext, counter: 0 }
    }

    /// A search for a timestamped file that starts at
    /// `PREFIX_TIMESTAMP.EXT`.
    pub fn timestamped(prefix: &str, timestamp: &str, ext: &str) -> (s: Self)
        ensures
            s.stem() == prefix@ + seq!['_'] + timestamp@,
            s.ext() == ext@,
            s.counter() == 0,
    {
        let mut stem = String::from_str(prefix);
        push_char(&mut stem, '_');
        stem.append(timestamp);
        FileNameSearch { stem, ext: String::from_str(ext), counter: 0 }
    }

    /// The candidate currently proposed.
    pub fn candidate(&self) -> (name: String)
        ensures
            name@ == numbered_name(self.stem(), self.counter(), self.ext()),
    {
        numbered_file_name(self.stem.as_str(), self.counter, self.ext.as_str())
    }

    /// How many candidates were passed over so far.
    pub fn attempts(&self) -> (n: u64)
        ensures
            n == self.counter(),
    {
        self.counter
    }

    /// Passes over the current candidate, which is taken, to the next one.
    pub fn advance(&mut self)
        requires
            old(self).counter() < u64::MAX,
        ensures
            final(self).counter() == old(self).counter() + 1,
            final(self).stem() == old(self).stem(),
            final(self).ext() == old(self).ext(),
    {
        self.counter = self.counter + 1;
    }
}

} // verus!
