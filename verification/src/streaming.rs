//! Streaming: platforms and quality presets, stream profiles, the live
//! statistics of a running stream and its health rating, the ingest URL and
//! the endpoint that a connection test dials.
//!
//! Time enters as readings of a monotonic clock in nanoseconds; the caller
//! reads the clock and hands the reading in.

use vstd::prelude::*;
use crate::text::{
    after_char, before_char, chars_of, contains, decimal, decimal_string, ends_with_char,
    has_prefix, has_suffix, parse_u16, parse_u16_exec, push_char, split_at_char,
    starts_with_str, strip_prefixes, strip_prefixes_exec, string_from_chars,
};

verus! {

/// A streaming platform.
#[derive(Debug, Clone, Copy, PartialEq, Eq, Structural)]
pub enum StreamPlatform {
    YouTube,
    Twitch,
    Facebook,
    CustomRtmp,
    CustomSrt,
}

/// The ingest server that a platform uses unless told otherwise.
pub open spec fn platform_server_url(p: StreamPlatform) -> Seq<char> {
    match p {
        StreamPlatform::YouTube => "rtmp://a.rtmp.youtube.com/live2"@,
        StreamPlatform::Twitch => "rtmp://live.twitch.tv/app"@,
        StreamPlatform::Facebook => "rtmps://live-api-s.facebook.com:443/rtmp"@,
        StreamPlatform::CustomRtmp => ""@,
        StreamPlatform::CustomSrt => ""@,
    }
}

/// The name of a platform as the user sees it.
pub open spec fn platform_name(p: StreamPlatform) -> Seq<char> {
    match p {
        StreamPlatform::YouTube => "YouTube"@,
        StreamPlatform::Twitch => "Twitch"@,
        StreamPlatform::Facebook => "Facebook"@,
        StreamPlatform::CustomRtmp => "Custom RTMP"@,
        StreamPlatform::CustomSrt => "Custom SRT"@,
    }
}

impl StreamPlatform {
    /// The platform's default ingest server URL (empty for custom endpoints).
    pub fn default_server_url(&self) -> (r: &str)
        ensures
            r@ == platform_server_url(*self),
    {
        match self {
            StreamPlatform::YouTube => "rtmp://a.rtmp.youtube.com/live2",
            StreamPlatform::Twitch => "rtmp://live.twitch.tv/app",
            StreamPlatform::Facebook => "rtmps://live-api-s.facebook.com:443/rtmp",
            StreamPlatform::CustomRtmp => "",
            StreamPlatform::CustomSrt => "",
        }
    }

    /// The platform's display name.
    pub fn display_name(&self) -> (r: &str)
        ensures
            r@ == platform_name(*self),
    {
        match self {
            StreamPlatform::YouTube => "YouTube",
            StreamPlatform::Twitch => "Twitch",
            StreamPlatform::Facebook => "Facebook",
            StreamPlatform::CustomRtmp => "Custom RTMP",
            StreamPlatform::CustomSrt => "Custom SRT",
        }
    }
}

/// A stream quality preset.
#[derive(Debug, Clone, Copy, PartialEq, Eq, Structural)]
pub enum StreamQualityPreset {
    UltraLow,
    Low,
    Balanced,
    FullHD,
    High,
    Ultra,
    Custom,
}

/// Width and height of a preset.
pub open spec fn preset_resolution(p: StreamQualityPreset) -> (u32, u32) {
    match p {
        StreamQualityPreset::UltraLow => (640, 360),
        StreamQualityPreset::Low => (854, 480),
        StreamQualityPreset::Balanced => (1280, 720),
        StreamQualityPreset::FullHD => (1920, 1080),
        StreamQualityPreset::High => (2560, 1440),
        StreamQualityPreset::Ultra => (3840, 2160),
        StreamQualityPreset::Custom => (1920, 1080),
    }
}

/// Frame rate of a preset.
pub open spec fn preset_fps(p: StreamQualityPreset) -> u32 {
    match p {
        StreamQualityPreset::UltraLow => 30,
        StreamQualityPreset::Low => 30,
        _ => 60,
    }
}

/// Recommended video bitrate of a preset, in kbit/s.
pub open spec fn preset_bitrate_kbps(p: StreamQualityPreset) -> u32 {
    match p {
        StreamQualityPreset::UltraLow => 1000,
        StreamQualityPreset::Low => 1500,
        StreamQualityPreset::Balanced => 4500,
        StreamQualityPreset::FullHD => 6500,
        StreamQualityPreset::High => 13000,
        StreamQualityPreset::Ultra => 28000,
        StreamQualityPreset::Custom => 6000,
    }
}

/// The name of a preset as the user sees it.
pub open spec fn preset_name(p: StreamQualityPreset) -> Seq<char> {
    match p {
        StreamQualityPreset::UltraLow => "Ultra Low (360p)"@,
        StreamQualityPreset::Low => "Low (480p)"@,
        StreamQualityPreset::Balanced => "Balanced (720p60)"@,
        StreamQualityPreset::FullHD => "Full HD (1080p60)"@,
        StreamQualityPreset::High => "High (1440p60)"@,
        StreamQualityPreset::Ultra => "Ultra (4K60)"@,
        StreamQualityPreset::Custom => "Custom"@,
    }
}

impl StreamQualityPreset {
    /// Width and height of the preset.
    pub fn resolution(&self) -> (r: (u32, u32))
        ensures
            r == preset_resolution(*self),
    {
        match self {
            StreamQualityPreset::UltraLow => (640, 360),
            StreamQualityPreset::Low => (854, 480),
            StreamQualityPreset::Balanced => (1280, 720),
            StreamQualityPreset::FullHD => (1920, 1080),
            StreamQualityPreset::High => (2560, 1440),
            StreamQualityPreset::Ultra => (3840, 2160),
            StreamQualityPreset::Custom => (1920, 1080),
        }
    }

    /// Frame rate of the preset.
    pub fn fps(&self) -> (r: u32)
        ensures
            r == preset_fps(*self),
    {
        match self {
            StreamQualityPreset::UltraLow => 30,
            StreamQualityPreset::Low => 30,
            _ => 60,
        }
    }

    /// Recommended video bitrate of the preset, in kbit/s.
    pub fn recommended_bitrate_kbps(&self) -> (r: u32)
        ensures
            r == preset_bitrate_kbps(*self),
    {
        match self {
            StreamQualityPreset::UltraLow => 1000,
            StreamQualityPreset::Low => 1500,
            StreamQualityPreset::Balanced => 4500,
            StreamQualityPreset::FullHD => 6500,
            StreamQualityPreset::High => 13000,
            StreamQualityPreset::Ultra => 28000,
            StreamQualityPreset::Custom => 6000,
        }
    }

    /// The preset's display name.
    pub fn display_name(&self) -> (r: &str)
        ensures
            r@ == preset_name(*self),
    {
        match self {
            StreamQualityPreset::UltraLow => "Ultra Low (360p)",
            StreamQualityPreset::Low => "Low (480p)",
            StreamQualityPreset::Balanced => "Balanced (720p60)",
            StreamQualityPreset::FullHD => "Full HD (1080p60)",
            StreamQualityPreset::High => "High (1440p60)",
            StreamQualityPreset::Ultra => "Ultra (4K60)",
            StreamQualityPreset::Custom => "Custom",
        }
    }
}


/// The settings of one stream: where it goes and how it is encoded.
#[derive(Debug, Clone)]
pub struct StreamProfile {
    pub name: String,
    pub platform: StreamPlatform,
    pub server_url: String,
    pub quality_preset: StreamQualityPreset,
    pub width: u32,
    pub height: u32,
    pub fps: u32,
    pub bitrate_kbps: u32,
    pub codec: String,
    pub keyframe_interval: u32,
    pub audio_bitrate_kbps: u32,
    pub audio_sample_rate: u32,
}

/// `p` is a YouTube H.264 profile with the given name, preset, size, rate,
/// video and audio bitrates, a two-second keyframe interval and 48 kHz audio.
pub open spec fn is_youtube_profile(
    p: StreamProfile,
    name: Seq<char>,
    preset: StreamQualityPreset,
    width: u32,
    height: u32,
    fps: u32,
    bitrate_kbps: u32,
    audio_bitrate_kbps: u32,
) -> bool {
    &&& p.name@ == name
    &&& p.platform == StreamPlatform::YouTube
    &&& p.server_url@ == "rtmp://a.rtmp.youtube.com/live2"@
    &&& p.quality_preset == preset
    &&& p.width == width
    &&& p.height == height
    &&& p.fps == fps
    &&& p.bitrate_kbps == bitrate_kbps
    &&& p.codec@ == "h264"@
    &&& p.keyframe_interval == 2
    &&& p.audio_bitrate_kbps == audio_bitrate_kbps
    &&& p.audio_sample_rate == 48000
}

fn youtube_profile(
    name: &str,
    preset: StreamQualityPreset,
    width: u32,
    height: u32,
    fps: u32,
    bitrate_kbps: u32,
    audio_bitrate_kbps: u32,
) -> (p: StreamProfile)
    ensures
        is_youtube_profile(p, name@, preset, width, height, fps, bitrate_kbps, audio_bitrate_kbps),
{
    StreamProfile {
        name: String::from_str(name),
        platform: StreamPlatform::YouTube,
        server_url: String::from_str("rtmp://a.rtmp.youtube.com/live2"),
        quality_preset: preset,
        width,
        height,
        fps,
        bitrate_kbps,
        codec: String::from_str("h264"),
        keyframe_interval: 2,
        audio_bitrate_kbps,
        audio_sample_rate: 48000,
    }
}

impl Default for StreamProfile {
    /// YouTube at 1080p60, 6500 kbit/s video and 192 kbit/s audio.
    fn default() -> (p: Self)
        ensures
            is_youtube_profile(p, "YouTube 1080p60"@, StreamQualityPreset::FullHD, 1920, 1080, 60, 6500, 192),
    {
        youtube_profile("YouTube 1080p60", StreamQualityPreset::FullHD, 1920, 1080, 60, 6500, 192)
    }
}

/// The ready-made YouTube profiles, from 720p30 up to 4K60.
pub fn youtube_presets() -> (v: Vec<StreamProfile>)
    ensures
        v@.len() == 8,
        is_youtube_profile(v@[0], "YouTube 720p30"@, StreamQualityPreset::Balanced, 1280, 720, 30, 2500, 128),
        is_youtube_profile(v@[1], "YouTube 720p60"@, StreamQualityPreset::Balanced, 1280, 720, 60, 4500, 160),
        is_youtube_profile(v@[2], "YouTube 1080p30"@, StreamQualityPreset::FullHD, 1920, 1080, 30, 4500, 128),
        is_youtube_profile(v@[3], "YouTube 1080p60"@, StreamQualityPreset::FullHD, 1920, 1080, 60, 6500, 192),
        is_youtube_profile(v@[4], "YouTube 1440p30"@, StreamQualityPreset::High, 2560, 1440, 30, 9000, 128),
        is_youtube_profile(v@[5], "YouTube 1440p60"@, StreamQualityPreset::High, 2560, 1440, 60, 13000, 256),
        is_youtube_profile(v@[6], "YouTube 4K30"@, StreamQualityPreset::Ultra, 3840, 2160, 30, 18000, 128),
        is_youtube_profile(v@[7], "YouTube 4K60"@, StreamQualityPreset::Ultra, 3840, 2160, 60, 28000, 320),
{
    let mut v: Vec<StreamProfile> = Vec::new();
    v.push(youtube_profile("YouTube 720p30", StreamQualityPreset::Balanced, 1280, 720, 30, 2500, 128));
    v.push(youtube_profile("YouTube 720p60", StreamQualityPreset::Balanced, 1280, 720, 60, 4500, 160));
    v.push(youtube_profile("YouTube 1080p30", StreamQualityPreset::FullHD, 1920, 1080, 30, 4500, 128));
    v.push(youtube_profile("YouTube 1080p60", StreamQualityPreset::FullHD, 1920, 1080, 60, 6500, 192));
    v.push(youtube_profile("YouTube 1440p30", StreamQualityPreset::High, 2560, 1440, 30, 9000, 128));
    v.push(youtube_profile("YouTube 1440p60", StreamQualityPreset::High, 2560, 1440, 60, 13000, 256));
    v.push(youtube_profile("YouTube 4K30", StreamQualityPreset::Ultra, 3840, 2160, 30, 18000, 128));
    v.push(youtube_profile("YouTube 4K60", StreamQualityPreset::Ultra, 3840, 2160, 60, 28000, 320));
    v
}

/// The health rating of a live stream.
#[derive(Debug, Clone, Copy, PartialEq, Eq, Structural)]
pub enum StreamHealthStatus {
    Excellent,
    Good,
    Fair,
    Poor,
    Critical,
    Disconnected,
}

/// The name of a health rating.
pub open spec fn health_name(h: StreamHealthStatus) -> Seq<char> {
    match h {
        StreamHealthStatus::Excellent => "Excellent"@,
        StreamHealthStatus::Good => "Good"@,
        StreamHealthStatus::Fair => "Fair"@,
        StreamHealthStatus::Poor => "Poor"@,
        StreamHealthStatus::Critical => "Critical"@,
        StreamHealthStatus::Disconnected => "Disconnected"@,
    }
}

fn health_label(h: StreamHealthStatus) -> (s: String)
    ensures
        s@ == health_name(h),
{
    match h {
        StreamHealthStatus::Excellent => String::from_str("Excellent"),
        StreamHealthStatus::Good => String::from_str("Good"),
        StreamHealthStatus::Fair => String::from_str("Fair"),
        StreamHealthStatus::Poor => String::from_str("Poor"),
        StreamHealthStatus::Critical => String::from_str("Critical"),
        StreamHealthStatus::Disconnected => String::from_str("Disconnected"),
    }
}

/// Statistics of a stream.
///
/// Rates are held as the exact counts they are computed from:
/// the drop percentage is `100 * drop_rate_dropped / drop_rate_total`
/// (zero while `drop_rate_total` is zero), and the upload speed in kbit/s is
/// `8_000_000 * upload_bytes / upload_window_ns` (zero while the window is zero).
#[derive(Debug, Clone)]
pub struct StreamStats {
    pub is_live: bool,
    pub health: StreamHealthStatus,
    pub resolution: String,
    pub fps: u32,
    pub bitrate_kbps: u32,
    pub upload_bytes: u64,
    pub upload_window_ns: u64,
    pub dropped_frames: u64,
    pub total_frames: u64,
    pub drop_rate_dropped: u64,
    pub drop_rate_total: u64,
    pub encoder_name: String,
    pub duration_seconds: u64,
    pub reconnect_count: u32,
    pub network_status: String,
}

impl Default for StreamStats {
    /// An idle, disconnected stream at 1920x1080, 60 fps.
    fn default() -> (s: Self)
        ensures
            !s.is_live,
            s.health == StreamHealthStatus::Disconnected,
            s.resolution@ == "1920x1080"@,
            s.fps == 60,
            s.bitrate_kbps == 0,
            s.upload_bytes == 0,
            s.upload_window_ns == 0,
            s.dropped_frames == 0,
            s.total_frames == 0,
            s.drop_rate_dropped == 0,
            s.drop_rate_total == 0,
            s.encoder_name@ == Seq::<char>::empty(),
            s.duration_seconds == 0,
            s.reconnect_count == 0,
            s.network_status@ == "Disconnected"@,
    {
        StreamStats {
            is_live: false,
            health: StreamHealthStatus::Disconnected,
            resolution: String::from_str("1920x1080"),
            fps: 60,
            bitrate_kbps: 0,
            upload_bytes: 0,
            upload_window_ns: 0,
            dropped_frames: 0,
            total_frames: 0,
            drop_rate_dropped: 0,
            drop_rate_total: 0,
            encoder_name: String::new(),
            duration_seconds: 0,
            reconnect_count: 0,
            network_status: String::from_str("Disconnected"),
        }
    }
}

impl StreamStats {
    /// A field-by-field copy.
    pub fn duplicate(&self) -> (r: StreamStats)
        ensures
            r == *self,
    {
        StreamStats {
            is_live: self.is_live,
            health: self.health,
            resolution: self.resolution.clone(),
            fps: self.fps,
            bitrate_kbps: self.bitrate_kbps,
            upload_bytes: self.upload_bytes,
            upload_window_ns: self.upload_window_ns,
            dropped_frames: self.dropped_frames,
            total_frames: self.total_frames,
            drop_rate_dropped: self.drop_rate_dropped,
            drop_rate_total: self.drop_rate_total,
            encoder_name: self.encoder_name.clone(),
            duration_seconds: self.duration_seconds,
            reconnect_count: self.reconnect_count,
            network_status: self.network_status.clone(),
        }
    }
}

/// The drop percentage of `s` is above `num / den` percent.
pub open spec fn drop_percent_above(s: StreamStats, num: int, den: int) -> bool {
    s.drop_rate_total > 0 && 100 * s.drop_rate_dropped * den > num * s.drop_rate_total
}

/// The upload speed of `s` is below eighty percent of `bitrate_kbps`.
pub open spec fn upload_below_target(s: StreamStats, bitrate_kbps: u32) -> bool {
    if s.upload_window_ns == 0 {
        0 < bitrate_kbps
    } else {
        10_000_000 * s.upload_bytes < bitrate_kbps * s.upload_window_ns
    }
}

/// The health rating of a stream with these statistics and target bitrate.
pub open spec fn health_of(s: StreamStats, bitrate_kbps: u32) -> StreamHealthStatus {
    if !s.is_live {
        StreamHealthStatus::Disconnected
    } else if drop_percent_above(s, 5, 1) {
        StreamHealthStatus::Critical
    } else if drop_percent_above(s, 2, 1) {
        StreamHealthStatus::Poor
    } else if drop_percent_above(s, 1, 2) {
        StreamHealthStatus::Fair
    } else if upload_below_target(s, bitrate_kbps) {
        StreamHealthStatus::Fair
    } else {
        StreamHealthStatus::Excellent
    }
}

/// The health rating computed in exact integer arithmetic.
pub fn rate_health(s: &StreamStats, bitrate_kbps: u32) -> (h: StreamHealthStatus)
    ensures
        h == health_of(*s, bitrate_kbps),
{
    let dropped = s.drop_rate_dropped as u128;
    let total = s.drop_rate_total as u128;
    let b = bitrate_kbps as u128;
    let w = s.upload_window_ns as u128;
    assert(b * w <= 0xffff_ffffu128 * 0xffff_ffff_ffff_ffffu128) by (nonlinear_arith)
        requires
            b <= 0xffff_ffffu128,
            w <= 0xffff_ffff_ffff_ffffu128,
    ;
    if !s.is_live {
        StreamHealthStatus::Disconnected
    } else if total > 0 && 100 * dropped > 5 * total {
        StreamHealthStatus::Critical
    } else if total > 0 && 100 * dropped > 2 * total {
        StreamHealthStatus::Poor
    } else if total > 0 && 200 * dropped > total {
        StreamHealthStatus::Fair
    } else if (s.upload_window_ns == 0 && 0 < bitrate_kbps) || (s.upload_window_ns != 0
        && 10_000_000 * (s.upload_bytes as u128) < b * w) {
        StreamHealthStatus::Fair
    } else {
        StreamHealthStatus::Excellent
    }
}

/// Streaming settings.
#[derive(Debug, Clone)]
pub struct StreamConfig {
    pub profile: StreamProfile,
    pub stream_key: String,
    pub auto_reconnect: bool,
    pub reconnect_delay_seconds: u32,
    pub max_reconnect_attempts: u32,
    pub record_while_streaming: bool,
}

impl Default for StreamConfig {
    /// The default profile, no key, reconnecting up to ten times five seconds apart.
    fn default() -> (c: Self)
        ensures
            is_youtube_profile(c.profile, "YouTube 1080p60"@, StreamQualityPreset::FullHD, 1920, 1080, 60, 6500, 192),
            c.stream_key@ == Seq::<char>::empty(),
            c.auto_reconnect,
            c.reconnect_delay_seconds == 5,
            c.max_reconnect_attempts == 10,
            !c.record_while_streaming,
    {
        StreamConfig {
            profile: StreamProfile::default(),
            stream_key: String::new(),
            auto_reconnect: true,
            reconnect_delay_seconds: 5,
            max_reconnect_attempts: 10,
            record_while_streaming: false,
        }
    }
}


/// `a - b`, or zero when `b` is the later reading.
pub open spec fn elapsed_ns(now: u64, earlier: u64) -> int {
    if now >= earlier { now - earlier } else { 0 }
}

/// The ingest URL for a server and a stream key: joined by a single `/`
/// unless the server already ends with one.
pub open spec fn rtmp_url(server: Seq<char>, key: Seq<char>) -> Seq<char> {
    if has_suffix(server, seq!['/']) {
        server + key
    } else {
        server + seq!['/'] + key
    }
}

/// The width and height of a picture written as `WIDTHxHEIGHT`.
pub open spec fn resolution_text(width: u32, height: u32) -> Seq<char> {
    decimal(width as nat) + seq!['x'] + decimal(height as nat)
}

/// Renders a picture size as `WIDTHxHEIGHT`.
pub fn resolution_string(width: u32, height: u32) -> (s: String)
    ensures
        s@ == resolution_text(width, height),
{
    let mut s = decimal_string(width as u64);
    push_char(&mut s, 'x');
    let h = decimal_string(height as u64);
    s.append(h.as_str());
    s
}

/// Everything a stream engine holds.
pub struct StreamEngineState {
    pub config: StreamConfig,
    pub running: bool,
    pub stats: StreamStats,
    pub start_time_ns: Option<u64>,
    pub bytes_sent: u64,
    pub last_bytes_check_ns: u64,
}

/// The state of one outgoing stream: its settings, whether it is live, its
/// statistics and the bytes sent since the upload speed was last measured.
pub struct StreamEngine {
    config: StreamConfig,
    running: bool,
    stats: StreamStats,
    start_time_ns: Option<u64>,
    bytes_sent: u64,
    last_bytes_check_ns: u64,
}

impl View for StreamEngine {
    type V = StreamEngineState;

    closed spec fn view(&self) -> StreamEngineState {
        StreamEngineState {
            config: self.config,
            running: self.running,
            stats: self.stats,
            start_time_ns: self.start_time_ns,
            bytes_sent: self.bytes_sent,
            last_bytes_check_ns: self.last_bytes_check_ns,
        }
    }
}

impl StreamEngine {
    /// An engine never counts more dropped frames than frames, neither in
    /// its frame counters nor in the counts its drop rate is taken over.
    #[verifier::type_invariant]
    spec fn counts_consistent(self) -> bool {
        &&& self.stats.dropped_frames <= self.stats.total_frames
        &&& self.stats.drop_rate_dropped <= self.stats.drop_rate_total
    }

    /// An engine that is not streaming, with default statistics; `now_ns`
    /// starts the first upload-speed window.
    pub fn new(config: StreamConfig, now_ns: u64) -> (e: Self)
        ensures
            e@.config == config,
            !e@.running,
            !e@.stats.is_live,
            e@.stats.health == StreamHealthStatus::Disconnected,
            e@.stats.resolution@ == "1920x1080"@,
            e@.stats.fps == 60,
            e@.stats.bitrate_kbps == 0,
            e@.stats.upload_bytes == 0,
            e@.stats.upload_window_ns == 0,
            e@.stats.dropped_frames == 0,
            e@.stats.total_frames == 0,
            e@.stats.drop_rate_dropped == 0,
            e@.stats.drop_rate_total == 0,
            e@.stats.encoder_name@ == Seq::<char>::empty(),
            e@.stats.duration_seconds == 0,
            e@.stats.reconnect_count == 0,
            e@.stats.network_status@ == "Disconnected"@,
            e@.start_time_ns is None,
            e@.bytes_sent == 0,
            e@.last_bytes_check_ns == now_ns,
    {
        StreamEngine {
            config,
            running: false,
            stats: StreamStats::default(),
            start_time_ns: None,
            bytes_sent: 0,
            last_bytes_check_ns: now_ns,
        }
    }

    /// The full ingest URL: the server URL and the stream key.
    pub fn build_rtmp_url(&self) -> (url: String)
        ensures
            url@ == rtmp_url(self@.config.profile.server_url@, self@.config.stream_key@),
    {
        let server = self.config.profile.server_url.as_str();
        let key = self.config.stream_key.as_str();
        let mut url = String::from_str(server);
        if ends_with_char(server, '/') {
            url.append(key);
        } else {
            push_char(&mut url, '/');
            url.append(key);
        }
        url
    }

    /// The current statistics at clock reading `now_ns`: the elapsed time of
    /// a live stream, the upload speed over the window since the last
    /// measurement (when that window is longer than half a second, which then
    /// starts a new window), and the health rating with its name.
    pub fn get_stats(&mut self, now_ns: u64) -> (r: StreamStats)
        ensures
            r.is_live == old(self)@.stats.is_live,
            r.resolution == old(self)@.stats.resolution,
            r.fps == old(self)@.stats.fps,
            r.bitrate_kbps == old(self)@.stats.bitrate_kbps,
            r.dropped_frames == old(self)@.stats.dropped_frames,
            r.total_frames == old(self)@.stats.total_frames,
            r.drop_rate_dropped == old(self)@.stats.drop_rate_dropped,
            r.drop_rate_total == old(self)@.stats.drop_rate_total,
            r.encoder_name == old(self)@.stats.encoder_name,
            r.reconnect_count == old(self)@.stats.reconnect_count,
            r.duration_seconds == match old(self)@.start_time_ns {
                Some(start) => elapsed_ns(now_ns, start) / 1_000_000_000,
                None => old(self)@.stats.duration_seconds as int,
            },
            elapsed_ns(now_ns, old(self)@.last_bytes_check_ns) > 500_000_000 ==> {
                &&& r.upload_bytes == old(self)@.bytes_sent
                &&& r.upload_window_ns == elapsed_ns(now_ns, old(self)@.last_bytes_check_ns)
                &&& final(self)@.bytes_sent == 0
                &&& final(self)@.last_bytes_check_ns == now_ns
            },
            elapsed_ns(now_ns, old(self)@.last_bytes_check_ns) <= 500_000_000 ==> {
                &&& r.upload_bytes == old(self)@.stats.upload_bytes
                &&& r.upload_window_ns == old(self)@.stats.upload_window_ns
                &&& final(self)@.bytes_sent == old(self)@.bytes_sent
                &&& final(self)@.last_bytes_check_ns == old(self)@.last_bytes_check_ns
            },
            r.health == health_of(r, old(self)@.config.profile.bitrate_kbps),
            r.network_status@ == health_name(r.health),
            r.dropped_frames <= r.total_frames,
            r.drop_rate_dropped <= r.drop_rate_total,
            final(self)@.config == old(self)@.config,
            final(self)@.running == old(self)@.running,
            final(self)@.stats == old(self)@.stats,
            final(self)@.start_time_ns == old(self)@.start_time_ns,
    {
        proof {
            use_type_invariant(&*self);
        }
        let mut stats = self.stats.duplicate();
        match self.start_time_ns {
            Some(start) => {
                stats.duration_seconds = now_ns.saturating_sub(start) / 1_000_000_000;
            },
            None => {},
        }
        let elapsed = now_ns.saturating_sub(self.last_bytes_check_ns);
        if elapsed > 500_000_000 {
            stats.upload_bytes = self.bytes_sent;
            stats.upload_window_ns = elapsed;
            self.last_bytes_check_ns = now_ns;
            self.bytes_sent = 0;
        }
        stats.health = rate_health(&stats, self.config.profile.bitrate_kbps);
        stats.network_status = health_label(stats.health);
        stats
    }

    /// Marks the stream live from clock reading `now_ns` with the given
    /// encoder; resets the frame counters and takes resolution, frame rate
    /// and bitrate from the profile.
    pub fn mark_started(&mut self, encoder_name: &str, now_ns: u64)
        ensures
            final(self)@.running,
            final(self)@.start_time_ns == Some(now_ns),
            final(self)@.stats.is_live,
            final(self)@.stats.encoder_name@ == encoder_name@,
            final(self)@.stats.resolution@ == resolution_text(
                old(self)@.config.profile.width,
                old(self)@.config.profile.height,
            ),
            final(self)@.stats.fps == old(self)@.config.profile.fps,
            final(self)@.stats.bitrate_kbps == old(self)@.config.profile.bitrate_kbps,
            final(self)@.stats.dropped_frames == 0,
            final(self)@.stats.total_frames == 0,
            final(self)@.stats.health == old(self)@.stats.health,
            final(self)@.stats.upload_bytes == old(self)@.stats.upload_bytes,
            final(self)@.stats.upload_window_ns == old(self)@.stats.upload_window_ns,
            final(self)@.stats.drop_rate_dropped == old(self)@.stats.drop_rate_dropped,
            final(self)@.stats.drop_rate_total == old(self)@.stats.drop_rate_total,
            final(self)@.stats.duration_seconds == old(self)@.stats.duration_seconds,
            final(self)@.stats.reconnect_count == old(self)@.stats.reconnect_count,
            final(self)@.stats.network_status == old(self)@.stats.network_status,
            final(self)@.config == old(self)@.config,
            final(self)@.bytes_sent == old(self)@.bytes_sent,
            final(self)@.last_bytes_check_ns == old(self)@.last_bytes_check_ns,
    {
        proof {
            use_type_invariant(&*self);
        }
        self.start_time_ns = Some(now_ns);
        self.running = true;
        self.stats.is_live = true;
        self.stats.encoder_name = String::from_str(encoder_name);
        self.stats.resolution = resolution_string(self.config.profile.width, self.config.profile.height);
        self.stats.fps = self.config.profile.fps;
        self.stats.bitrate_kbps = self.config.profile.bitrate_kbps;
        self.stats.dropped_frames = 0;
        self.stats.total_frames = 0;
    }

    /// Marks the stream stopped and disconnected.
    pub fn mark_stopped(&mut self)
        ensures
            !final(self)@.running,
            final(self)@.start_time_ns is None,
            !final(self)@.stats.is_live,
            final(self)@.stats.health == StreamHealthStatus::Disconnected,
            final(self)@.stats.resolution == old(self)@.stats.resolution,
            final(self)@.stats.fps == old(self)@.stats.fps,
            final(self)@.stats.bitrate_kbps == old(self)@.stats.bitrate_kbps,
            final(self)@.stats.upload_bytes == old(self)@.stats.upload_bytes,
            final(self)@.stats.upload_window_ns == old(self)@.stats.upload_window_ns,
            final(self)@.stats.dropped_frames == old(self)@.stats.dropped_frames,
            final(self)@.stats.total_frames == old(self)@.stats.total_frames,
            final(self)@.stats.drop_rate_dropped == old(self)@.stats.drop_rate_dropped,
            final(self)@.stats.drop_rate_total == old(self)@.stats.drop_rate_total,
            final(self)@.stats.encoder_name == old(self)@.stats.encoder_name,
            final(self)@.stats.duration_seconds == old(self)@.stats.duration_seconds,
            final(self)@.stats.reconnect_count == old(self)@.stats.reconnect_count,
            final(self)@.stats.network_status == old(self)@.stats.network_status,
            final(self)@.config == old(self)@.config,
            final(self)@.bytes_sent == old(self)@.bytes_sent,
            final(self)@.last_bytes_check_ns == old(self)@.last_bytes_check_ns,
    {
        proof {
            use_type_invariant(&*self);
        }
        self.running = false;
        self.start_time_ns = None;
        self.stats.is_live = false;
        self.stats.health = StreamHealthStatus::Disconnected;
    }

    /// Counts one more frame, and one more dropped frame when `dropped`;
    /// the drop rate is then taken over the new counts.
    pub fn update_frame_stats(&mut self, dropped: bool)
        requires
            old(self)@.stats.total_frames < u64::MAX,
        ensures
            final(self)@.stats.total_frames == old(self)@.stats.total_frames + 1,
            final(self)@.stats.dropped_frames == old(self)@.stats.dropped_frames + if dropped { 1int } else { 0int },
            final(self)@.stats.drop_rate_dropped == final(self)@.stats.dropped_frames,
            final(self)@.stats.drop_rate_total == final(self)@.stats.total_frames,
            final(self)@.stats.is_live == old(self)@.stats.is_live,
            final(self)@.stats.health == old(self)@.stats.health,
            final(self)@.stats.resolution == old(self)@.stats.resolution,
            final(self)@.stats.fps == old(self)@.stats.fps,
            final(self)@.stats.bitrate_kbps == old(self)@.stats.bitrate_kbps,
            final(self)@.stats.upload_bytes == old(self)@.stats.upload_bytes,
            final(self)@.stats.upload_window_ns == old(self)@.stats.upload_window_ns,
            final(self)@.stats.encoder_name == old(self)@.stats.encoder_name,
            final(self)@.stats.duration_seconds == old(self)@.stats.duration_seconds,
            final(self)@.stats.reconnect_count == old(self)@.stats.reconnect_count,
            final(self)@.stats.network_status == old(self)@.stats.network_status,
            final(self)@.running == old(self)@.running,
            final(self)@.config == old(self)@.config,
            final(self)@.start_time_ns == old(self)@.start_time_ns,
            final(self)@.bytes_sent == old(self)@.bytes_sent,
            final(self)@.last_bytes_check_ns == old(self)@.last_bytes_check_ns,
    {
        proof {
            use_type_invariant(&*self);
        }
        self.stats.total_frames = self.stats.total_frames + 1;
        if dropped {
            self.stats.dropped_frames = self.stats.dropped_frames + 1;
        }
        // The rate's dropped count is cleared before its total moves, so it
        // never exceeds the total on the way.
        self.stats.drop_rate_dropped = 0;
        self.stats.drop_rate_total = self.stats.total_frames;
        self.stats.drop_rate_dropped = self.stats.dropped_frames;
    }

    /// Adds `bytes` to the bytes sent in the current upload-speed window.
    pub fn record_bytes_sent(&mut self, bytes: u64)
        requires
            old(self)@.bytes_sent + bytes <= u64::MAX,
        ensures
            final(self)@.bytes_sent == old(self)@.bytes_sent + bytes,
            final(self)@.config == old(self)@.config,
            final(self)@.running == old(self)@.running,
            final(self)@.stats == old(self)@.stats,
            final(self)@.start_time_ns == old(self)@.start_time_ns,
            final(self)@.last_bytes_check_ns == old(self)@.last_bytes_check_ns,
    {
        proof {
            use_type_invariant(&*self);
        }
        self.bytes_sent = self.bytes_sent + bytes;
    }

    /// Whether the stream has been marked started and not stopped since.
    pub fn is_running(&self) -> (b: bool)
        ensures
            b == self@.running,
    {
        self.running
    }

    /// The streaming settings.
    pub fn config(&self) -> (c: &StreamConfig)
        ensures
            *c == self@.config,
    {
        &self.config
    }

    /// Replaces the streaming settings.
    pub fn update_config(&mut self, config: StreamConfig)
        ensures
            final(self)@.config == config,
            final(self)@.running == old(self)@.running,
            final(self)@.stats == old(self)@.stats,
            final(self)@.start_time_ns == old(self)@.start_time_ns,
            final(self)@.bytes_sent == old(self)@.bytes_sent,
            final(self)@.last_bytes_check_ns == old(self)@.last_bytes_check_ns,
    {
        proof {
            use_type_invariant(&*self);
        }
        self.config = config;
    }
}


/// The host and port that a connection test dials for an ingest URL.
///
/// Every leading `rtmp://` and then every leading `rtmps://` is removed.
/// When what remains holds a `:`, the host is what precedes the first `:`
/// and the port is the number between it and the next `/` (1935 when that
/// is not a valid port). Otherwise the host is what precedes the first `/`
/// and the port is 443 for an `rtmps://` URL and 1935 for any other.
pub open spec fn stream_endpoint_of(server_url: Seq<char>) -> (Seq<char>, u16) {
    let url = strip_prefixes(strip_prefixes(server_url, "rtmp://"@), "rtmps://"@);
    if contains(url, seq![':']) {
        let port_text = before_char(after_char(url, ':'), '/');
        (before_char(url, ':'), match parse_u16(port_text) {
            Some(p) => p,
            None => 1935,
        })
    } else {
        (before_char(url, '/'), if has_prefix(server_url, "rtmps://"@) { 443 } else { 1935 })
    }
}

/// The host and port that a connection test for `server_url` dials.
pub fn stream_endpoint(server_url: &str) -> (r: (String, u16))
    ensures
        r.0@ == stream_endpoint_of(server_url@).0,
        r.1 == stream_endpoint_of(server_url@).1,
{
    let url = chars_of(server_url);
    let rtmp = chars_of("rtmp://");
    let rtmps = chars_of("rtmps://");
    let stripped = strip_prefixes_exec(&url, &rtmp);
    let rest = strip_prefixes_exec(&stripped, &rtmps);
    let (host, after, has_colon) = split_at_char(&rest, ':');
    if has_colon {
        let (port_text, _, _) = split_at_char(&after, '/');
        let port = match parse_u16_exec(&port_text) {
            Some(p) => p,
            None => 1935,
        };
        (string_from_chars(&host), port)
    } else {
        let (host, _, _) = split_at_char(&rest, '/');
        let port = if starts_with_str(server_url, "rtmps://") { 443 } else { 1935 };
        (string_from_chars(&host), port)
    }
}


/// Law of stream health: a stream that is not live is rated disconnected,
/// whatever its counters say, and no stream is ever rated `Good`.
pub proof fn law_health_of_stopped_stream(s: StreamStats, bitrate_kbps: u32)
    ensures
        !s.is_live ==> health_of(s, bitrate_kbps) == StreamHealthStatus::Disconnected,
        health_of(s, bitrate_kbps) != StreamHealthStatus::Good,
{
}

/// Law of stream health: with no drops and an upload at the target
/// bitrate or above, a live stream is rated excellent; more than five
/// percent of frames dropped makes it critical.
pub proof fn law_health_thresholds(s: StreamStats, bitrate_kbps: u32)
    requires
        s.is_live,
    ensures
        (s.drop_rate_dropped == 0 && !upload_below_target(s, bitrate_kbps))
            ==> health_of(s, bitrate_kbps) == StreamHealthStatus::Excellent,
        (s.drop_rate_total > 0 && 100 * s.drop_rate_dropped > 5 * s.drop_rate_total)
            ==> health_of(s, bitrate_kbps) == StreamHealthStatus::Critical,
{
}


/// Law of stream health: a live stream that drops more than one frame in
/// two hundred but not more than one in fifty is rated Fair, however fast
/// it uploads; and a live stream that drops frames (never more than it
/// counts) is rated Excellent only when it drops at most one in two hundred.
pub proof fn law_health_drop_bands(s: StreamStats, bitrate_kbps: u32)
    requires
        s.is_live,
    ensures
        (200 * s.drop_rate_dropped > s.drop_rate_total && 100 * s.drop_rate_dropped <= 2 * s.drop_rate_total)
            ==> health_of(s, bitrate_kbps) == StreamHealthStatus::Fair,
        (0 < s.drop_rate_dropped <= s.drop_rate_total
            && health_of(s, bitrate_kbps) == StreamHealthStatus::Excellent)
            ==> 200 * s.drop_rate_dropped <= s.drop_rate_total,
        (100 * s.drop_rate_dropped > 2 * s.drop_rate_total && 100 * s.drop_rate_dropped <= 5 * s.drop_rate_total)
            ==> health_of(s, bitrate_kbps) == StreamHealthStatus::Poor,
{
}

/// Law of stream health and upload speed: a live stream dropping at most
/// one frame in two hundred is rated Excellent when its measured upload
/// reaches eighty percent of the target bitrate, and Fair when a measured
/// upload falls short of it.
pub proof fn law_health_upload(s: StreamStats, bitrate_kbps: u32)
    requires
        s.is_live,
        200 * s.drop_rate_dropped <= s.drop_rate_total || s.drop_rate_dropped == 0,
        s.upload_window_ns > 0,
    ensures
        10_000_000 * s.upload_bytes >= bitrate_kbps * s.upload_window_ns
            ==> health_of(s, bitrate_kbps) == StreamHealthStatus::Excellent,
        10_000_000 * s.upload_bytes < bitrate_kbps * s.upload_window_ns
            ==> health_of(s, bitrate_kbps) == StreamHealthStatus::Fair,
{
}

} // verus!
