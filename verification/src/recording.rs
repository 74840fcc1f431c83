//! Recording: container formats, the life cycle of a recording session
//! (start, pause, resume, stop), output file names, remuxing targets and the
//! display of file sizes.
//!
//! Time enters as readings of a monotonic clock in nanoseconds.

use vstd::prelude::*;
use crate::audio::{is_default_audio, AudioConfig};
use crate::capture::{is_default_capture, CaptureConfig};
use crate::encoder::{is_default_encoder, push_str, texts, EncoderConfig};
use crate::storage::{is_date_text, is_time_text, local_date_and_time, FileNameSearch};
use crate::text::{decimal, digit_char, push_char, push_decimal, replace_all, replace_str};

verus! {

/// The container a recording is written in.
#[derive(Debug, Clone, Copy, PartialEq, Eq, Structural)]
pub enum ContainerFormat {
    Mkv,
    Mp4,
    WebM,
}

/// The file extension of a container.
pub open spec fn container_extension(c: ContainerFormat) -> Seq<char> {
    match c {
        ContainerFormat::Mkv => "mkv"@,
        ContainerFormat::Mp4 => "mp4"@,
        ContainerFormat::WebM => "webm"@,
    }
}

impl ContainerFormat {
    /// The file extension of the container, without the dot.
    pub fn extension(&self) -> (r: &str)
        ensures
            r@ == container_extension(*self),
    {
        match self {
            ContainerFormat::Mkv => "mkv",
            ContainerFormat::Mp4 => "mp4",
            ContainerFormat::WebM => "webm",
        }
    }
}

/// Where a recording session is in its life cycle.
#[derive(Debug, Clone, PartialEq, Eq)]
pub enum RecordingState {
    Idle,
    Starting,
    Recording,
    Paused,
    Stopping,
    Error(String),
}

/// Recording settings.
#[derive(Debug, Clone)]
pub struct RecordingConfig {
    pub capture: CaptureConfig,
    pub encoder: EncoderConfig,
    pub audio: AudioConfig,
    pub container: ContainerFormat,
    pub output_directory: String,
    pub filename_format: String,
    pub auto_remux_to_mp4: bool,
}

impl RecordingConfig {
    /// The default settings with recordings written to `output_directory`:
    /// default capture, encoder and audio, MKV remuxed to MP4 afterwards,
    /// named `Brail_{date}_{time}`.
    pub fn default_in(output_directory: String) -> (c: Self)
        ensures
            c.container == ContainerFormat::Mkv,
            c.output_directory == output_directory,
            c.filename_format@ == "Brail_{date}_{time}"@,
            c.auto_remux_to_mp4,
            is_default_capture(c.capture),
            is_default_encoder(c.encoder),
            is_default_audio(c.audio),
    {
        RecordingConfig {
            capture: CaptureConfig::default(),
            encoder: EncoderConfig::default(),
            audio: AudioConfig::default(),
            container: ContainerFormat::Mkv,
            output_directory,
            filename_format: String::from_str("Brail_{date}_{time}"),
            auto_remux_to_mp4: true,
        }
    }

    /// The stem of a recording's file name: the file name format with
    /// `{date}` and then `{time}` replaced by the given texts.
    pub fn output_stem(&self, date: &str, time: &str) -> (stem: String)
        ensures
            stem@ == replace_all(replace_all(self.filename_format@, "{date}"@, date@), "{time}"@, time@),
    {
        proof {
            reveal_strlit("{date}");
            reveal_strlit("{time}");
        }
        let with_date = replace_str(self.filename_format.as_str(), "{date}", date);
        replace_str(with_date.as_str(), "{time}", time)
    }

    /// A search for a free name for the next recording, stamped with the
    /// local date and time of the call: its stem is the file name format
    /// with `{date}` replaced by the date as `YYYY-MM-DD` and `{time}` by the
    /// time as `HH-MM-SS`, its extension that of the container. Whoever can
    /// see the output folder takes the first candidate that is not there.
    pub fn output_file_search(&self) -> (search: FileNameSearch)
        ensures
            exists|date: Seq<char>, time: Seq<char>|
                is_date_text(date) && is_time_text(time) && search.stem() == replace_all(
                    replace_all(self.filename_format@, "{date}"@, date),
                    "{time}"@,
                    time,
                ),
            search.ext() == container_extension(self.container),
            search.counter() == 0,
    {
        let (date, time) = local_date_and_time();
        let stem = self.output_stem(date.as_str(), time.as_str());
        let search = FileNameSearch::new(stem, String::from_str(self.container.extension()));
        assert(search.stem() == replace_all(
            replace_all(self.filename_format@, "{date}"@, date@),
            "{time}"@,
            time@,
        ));
        search
    }

    /// The MP4 file that a finished recording at `recorded` is remuxed to:
    /// the path with every `.mkv` replaced by `.mp4`, when remuxing is on
    /// and the container is MKV; otherwise none.
    pub fn remux_target(&self, recorded: &str) -> (target: Option<String>)
        ensures
            (self.auto_remux_to_mp4 && self.container == ContainerFormat::Mkv) <==> target is Some,
            target matches Some(t) ==> t@ == replace_all(recorded@, ".mkv"@, ".mp4"@),
    {
        let is_mkv = match self.container {
            ContainerFormat::Mkv => true,
            _ => false,
        };
        if self.auto_remux_to_mp4 && is_mkv {
            proof {
                reveal_strlit(".mkv");
            }
            Some(replace_str(recorded, ".mkv", ".mp4"))
        } else {
            None
        }
    }
}

/// Everything a recording pipeline holds.
pub struct RecordingPipelineState {
    pub config: RecordingConfig,
    pub state: RecordingState,
    pub running: bool,
    pub paused: bool,
    pub start_time_ns: Option<u64>,
    pub output_path: Option<Seq<char>>,
}

/// The view of an optional string.
pub open spec fn opt_string_view(o: Option<String>) -> Option<Seq<char>> {
    match o {
        Some(s) => Some(s@),
        None => None,
    }
}

/// The session after a pause request: a running session is paused,
/// anything else is left as it is.
pub open spec fn paused_session(s: RecordingPipelineState) -> RecordingPipelineState {
    if s.running {
        RecordingPipelineState { paused: true, state: RecordingState::Paused, ..s }
    } else {
        s
    }
}

/// The session after a resume request: a running session records again,
/// anything else is left as it is.
pub open spec fn resumed_session(s: RecordingPipelineState) -> RecordingPipelineState {
    if s.running {
        RecordingPipelineState { paused: false, state: RecordingState::Recording, ..s }
    } else {
        s
    }
}

/// The session after a stop request: a running session stops, unpauses,
/// goes idle and lets go of its output file; anything else is left as it is.
pub open spec fn stopped_session(s: RecordingPipelineState) -> RecordingPipelineState {
    if s.running {
        RecordingPipelineState {
            running: false,
            paused: false,
            state: RecordingState::Idle,
            output_path: None,
            ..s
        }
    } else {
        s
    }
}

/// The life cycle of one recording session: its settings, state, whether
/// it runs and is paused, when it started and where it writes.
pub struct RecordingPipeline {
    config: RecordingConfig,
    state: RecordingState,
    running: bool,
    paused: bool,
    start_time_ns: Option<u64>,
    output_path: Option<String>,
}

impl View for RecordingPipeline {
    type V = RecordingPipelineState;

    closed spec fn view(&self) -> RecordingPipelineState {
        RecordingPipelineState {
            config: self.config,
            state: self.state,
            running: self.running,
            paused: self.paused,
            start_time_ns: self.start_time_ns,
            output_path: opt_string_view(self.output_path),
        }
    }
}

impl RecordingPipeline {
    /// An idle session with the given settings.
    pub fn new(config: RecordingConfig) -> (p: Self)
        ensures
            p@ == (RecordingPipelineState {
                config,
                state: RecordingState::Idle,
                running: false,
                paused: false,
                start_time_ns: None,
                output_path: None,
            }),
    {
        RecordingPipeline {
            config,
            state: RecordingState::Idle,
            running: false,
            paused: false,
            start_time_ns: None,
            output_path: None,
        }
    }

    /// Starts a session writing to `output_path` at clock reading `now_ns`
    /// and returns that path; a session already running refuses, unchanged.
    pub fn start(&mut self, output_path: String, now_ns: u64) -> (r: Result<String, String>)
        ensures
            old(self)@.running ==> final(self)@ == old(self)@,
            old(self)@.running <==> r is Err,
            r matches Err(e) ==> e@ == "Recording already in progress"@,
            r matches Ok(p) ==> p@ == output_path@,
            !old(self)@.running ==> final(self)@ == (RecordingPipelineState {
                state: RecordingState::Starting,
                running: true,
                start_time_ns: Some(now_ns),
                output_path: Some(output_path@),
                ..old(self)@
            }),
    {
        if self.running {
            return Err(String::from_str("Recording already in progress"));
        }
        self.state = RecordingState::Starting;
        let result = output_path.clone();
        self.running = true;
        self.start_time_ns = Some(now_ns);
        self.output_path = Some(output_path);
        Ok(result)
    }

    /// The capture, audio and encoder are up: the session is recording.
    pub fn mark_recording(&mut self)
        ensures
            final(self)@ == (RecordingPipelineState { state: RecordingState::Recording, ..old(self)@ }),
    {
        self.state = RecordingState::Recording;
    }

    /// The session failed with `message`.
    pub fn mark_failed(&mut self, message: String)
        ensures
            final(self)@ == (RecordingPipelineState { state: RecordingState::Error(message), ..old(self)@ }),
    {
        self.state = RecordingState::Error(message);
    }

    /// Stops a running session and returns the file it was writing; a
    /// session that is not running is left as it is and gives nothing.
    pub fn stop(&mut self) -> (path: Option<String>)
        ensures
            final(self)@ == stopped_session(old(self)@),
            old(self)@.running ==> opt_string_view(path) == old(self)@.output_path,
            !old(self)@.running ==> path is None,
    {
        if !self.running {
            return None;
        }
        self.state = RecordingState::Stopping;
        self.running = false;
        self.paused = false;
        self.state = RecordingState::Idle;
        let path = self.output_path.take();
        path
    }

    /// Pauses a running session.
    pub fn pause(&mut self)
        ensures
            final(self)@ == paused_session(old(self)@),
    {
        if self.running {
            self.paused = true;
            self.state = RecordingState::Paused;
        }
    }

    /// Resumes a running session.
    pub fn resume(&mut self)
        ensures
            final(self)@ == resumed_session(old(self)@),
    {
        if self.running {
            self.paused = false;
            self.state = RecordingState::Recording;
        }
    }

    /// The session's state.
    pub fn state(&self) -> (s: RecordingState)
        ensures
            s == self@.state,
    {
        match &self.state {
            RecordingState::Idle => RecordingState::Idle,
            RecordingState::Starting => RecordingState::Starting,
            RecordingState::Recording => RecordingState::Recording,
            RecordingState::Paused => RecordingState::Paused,
            RecordingState::Stopping => RecordingState::Stopping,
            RecordingState::Error(m) => RecordingState::Error(m.clone()),
        }
    }

    /// Whole seconds since the session was last started, at clock reading
    /// `now_ns`; none when it was never started.
    pub fn duration_seconds(&self, now_ns: u64) -> (d: Option<u64>)
        ensures
            match self@.start_time_ns {
                Some(start) => d == Some(
                    (if now_ns >= start { (now_ns - start) as u64 } else { 0u64 }) / 1_000_000_000,
                ),
                None => d is None,
            },
    {
        match self.start_time_ns {
            Some(start) => Some(now_ns.saturating_sub(start) / 1_000_000_000),
            None => None,
        }
    }

    /// Whether the session is running.
    pub fn is_recording(&self) -> (b: bool)
        ensures
            b == self@.running,
    {
        self.running
    }

    /// Whether the session is paused.
    pub fn is_paused(&self) -> (b: bool)
        ensures
            b == self@.paused,
    {
        self.paused
    }

    /// The recording settings.
    pub fn config(&self) -> (c: &RecordingConfig)
        ensures
            *c == self@.config,
    {
        &self.config
    }

    /// Replaces the recording settings.
    pub fn update_config(&mut self, config: RecordingConfig)
        ensures
            final(self)@ == (RecordingPipelineState { config, ..old(self)@ }),
    {
        self.config = config;
    }
}

/// Law of the session life cycle: pausing and then resuming a running
/// session leaves it running, unpaused and recording, with the same
/// settings, start time and output file.
pub proof fn law_pause_resume(s: RecordingPipelineState)
    requires
        s.running,
    ensures
        resumed_session(paused_session(s)) == (RecordingPipelineState {
            paused: false,
            state: RecordingState::Recording,
            ..s
        }),
        paused_session(s).paused,
        paused_session(s).state == RecordingState::Paused,
{
}

/// Law of the session life cycle: after a stop the session neither runs
/// nor is paused, and pausing, resuming or stopping it again changes nothing.
pub proof fn law_stopped_session_is_inert(s: RecordingPipelineState)
    ensures
        !stopped_session(s).running,
        !stopped_session(s).paused || !s.running && s.paused,
        paused_session(stopped_session(s)) == stopped_session(s),
        resumed_session(stopped_session(s)) == stopped_session(s),
        stopped_session(stopped_session(s)) == stopped_session(s),
{
}

/// The arguments that remux the recording `input` into the MP4 file
/// `output` without re-encoding: every stream copied, the index moved to
/// the front of the file.
pub fn remux_args(input: &str, output: &str) -> (args: Vec<String>)
    ensures
        texts(args@) == seq!["-i"@, input@, "-c"@, "copy"@, "-movflags"@, "+faststart"@, output@],
{
    let mut args: Vec<String> = Vec::new();
    assert(texts(args@) =~= Seq::<Seq<char>>::empty());
    push_str(&mut args, "-i");
    push_str(&mut args, input);
    push_str(&mut args, "-c");
    push_str(&mut args, "copy");
    push_str(&mut args, "-movflags");
    push_str(&mut args, "+faststart");
    push_str(&mut args, output);
    assert(texts(args@) =~= seq!["-i"@, input@, "-c"@, "copy"@, "-movflags"@, "+faststart"@, output@]);
    args
}

/// What serde_json makes of the text `text` and the field `key`: nothing
/// when the text is not JSON; otherwise the string value of the field
/// `key` of a JSON object, or nothing inside when there is no such string.
pub uninterp spec fn json_string_field(text: Seq<char>, key: Seq<char>) -> Option<Option<Seq<char>>>;

/// The view of an optional optional string.
pub open spec fn opt_opt_view(o: Option<Option<String>>) -> Option<Option<Seq<char>>> {
    match o {
        Some(Some(s)) => Some(Some(s@)),
        Some(None) => Some(None),
        None => None,
    }
}

/// Parses `text` with `serde_json::from_str` into a `serde_json::Value`
/// and takes `value[key].as_str()`; the result is named `json_string_field`
/// of the text and the key, a function of the two alone.
#[verifier::external_body]
fn json_string_field_of(text: &str, key: &str) -> (r: Option<Option<String>>)
    ensures
        opt_opt_view(r) == json_string_field(text@, key@),
{
    match serde_json::from_str::<serde_json::Value>(text) {
        Ok(value) => Some(value[key].as_str().map(String::from)),
        Err(_) => None,
    }
}

/// The recording that a marker's `path` field names: nothing when the
/// marker is not JSON, `Unknown` when it holds no such string.
pub fn recording_path_from_field(field: Option<Option<String>>) -> (r: Option<String>)
    ensures
        match opt_opt_view(field) {
            None => r is None,
            Some(None) => r matches Some(p) && p@ == "Unknown"@,
            Some(Some(p)) => r matches Some(q) && q@ == p,
        },
{
    match field {
        None => None,
        Some(None) => Some(String::from_str("Unknown")),
        Some(Some(p)) => Some(p),
    }
}

/// The recording that a marker file left beside a recording names, read
/// from the marker's JSON text; nothing when the text is not JSON.
pub fn marker_recording_path(marker_json: &str) -> (r: Option<String>)
    ensures
        match json_string_field(marker_json@, "path"@) {
            None => r is None,
            Some(None) => r matches Some(p) && p@ == "Unknown"@,
            Some(Some(p)) => r matches Some(q) && q@ == p,
        },
{
    recording_path_from_field(json_string_field_of(marker_json, "path"))
}

/// The frame counts of a running recording: frames taken from the capture
/// and, among them, frames the encoder did not accept.
pub struct FrameTally {
    captured: u64,
    dropped: u64,
}

impl FrameTally {
    /// No frame is ever counted as dropped without being counted captured.
    #[verifier::type_invariant]
    spec fn dropped_within_captured(self) -> bool {
        self.dropped <= self.captured
    }

    /// The frames captured so far.
    pub closed spec fn captured(self) -> nat {
        self.captured as nat
    }

    /// The frames dropped so far.
    pub closed spec fn dropped(self) -> nat {
        self.dropped as nat
    }

    /// No frame counted yet.
    pub fn new() -> (t: Self)
        ensures
            t.captured() == 0,
            t.dropped() == 0,
    {
        FrameTally { captured: 0, dropped: 0 }
    }

    /// Counts a captured frame, and a dropped one when the encoder did not
    /// accept it (`sent` false); says whether this drop is one to report,
    /// which every hundredth drop is.
    pub fn count_frame(&mut self, sent: bool) -> (report: bool)
        requires
            old(self).captured() < u64::MAX,
        ensures
            final(self).captured() == old(self).captured() + 1,
            final(self).dropped() == old(self).dropped() + if sent { 0int } else { 1int },
            report == (!sent && final(self).dropped() % 100 == 0),
    {
        proof {
            use_type_invariant(&*self);
        }
        self.captured = self.captured + 1;
        if sent {
            false
        } else {
            self.dropped = self.dropped + 1;
            self.dropped % 100 == 0
        }
    }

    /// The frames captured so far.
    pub fn frames_captured(&self) -> (n: u64)
        ensures
            n == self.captured(),
    {
        self.captured
    }

    /// The frames dropped so far, never more than those captured.
    pub fn frames_dropped(&self) -> (n: u64)
        ensures
            n == self.dropped(),
            n <= self.captured(),
    {
        proof {
            use_type_invariant(self);
        }
        self.dropped
    }
}

/// `num / den` rounded to the nearest whole number, ties to the even one.
pub open spec fn round_half_even(num: nat, den: nat) -> nat {
    let q = num / den;
    let r = num % den;
    if 2 * r > den || (2 * r == den && q % 2 == 1) {
        q + 1
    } else {
        q
    }
}

/// The nearest value to `b` that a 64-bit float holds, found by doubling
/// `unit` until `b / unit` needs no more than 53 bits; ties go to the even
/// significand.
pub open spec fn nearest_double_with_unit(b: nat, unit: nat) -> nat
    decreases b + 1 - unit,
{
    if unit == 0 || b / unit < 0x20_0000_0000_0000 {
        round_half_even(b, if unit == 0 { 1 } else { unit }) * (if unit == 0 { 1 } else { unit })
    } else {
        proof {
            assert(2 * unit <= b) by (nonlinear_arith)
                requires
                    b / unit >= 0x20_0000_0000_0000,
                    unit >= 1,
            ;
        }
        nearest_double_with_unit(b, 2 * unit)
    }
}

/// The value of `b as f64`.
pub open spec fn nearest_double(b: nat) -> nat {
    nearest_double_with_unit(b, 1)
}

/// `n` tenths written with one decimal place.
pub open spec fn tenths_text(n: nat) -> Seq<char> {
    decimal(n / 10) + seq!['.', digit_char(n % 10)]
}

/// `n` hundredths written with two decimal places.
pub open spec fn hundredths_text(n: nat) -> Seq<char> {
    decimal(n / 100) + seq!['.', digit_char((n / 10) % 10), digit_char(n % 10)]
}

/// A file size as the user sees it: bytes below one KiB, then KiB and MiB
/// with one decimal place, then GiB with two, rounded as floating-point
/// formatting rounds the value `bytes as f64 / unit`.
pub open spec fn file_size_text(bytes: u64) -> Seq<char> {
    if bytes < 1024 {
        decimal(bytes as nat) + " B"@
    } else if bytes < 1024 * 1024 {
        tenths_text(round_half_even((10 * bytes) as nat, 1024)) + " KB"@
    } else if bytes < 1024 * 1024 * 1024 {
        tenths_text(round_half_even((10 * bytes) as nat, 1024 * 1024)) + " MB"@
    } else {
        hundredths_text(round_half_even(100 * nearest_double(bytes as nat), 1024 * 1024 * 1024)) + " GB"@
    }
}

fn round_half_even_exec(num: u128, den: u128) -> (r: u128)
    requires
        0 < den <= 0xffff_ffff_ffff_ffff,
        num / den < u128::MAX,
    ensures
        r == round_half_even(num as nat, den as nat),
{
    let q = num / den;
    let rem = num % den;
    if 2 * rem > den || (2 * rem == den && q % 2 == 1) {
        q + 1
    } else {
        q
    }
}

fn nearest_double_exec(b: u64) -> (r: u128)
    requires
        b >= 1,
    ensures
        r == nearest_double(b as nat),
        r <= 2 * (b as nat),
{
    let bb = b as u128;
    let mut unit: u128 = 1;
    while bb / unit >= 0x20_0000_0000_0000
        invariant
            bb == b as u128,
            1 <= unit <= bb,
            nearest_double(b as nat) == nearest_double_with_unit(b as nat, unit as nat),
        decreases bb - unit,
    {
        assert(unit <= bb / 2) by (nonlinear_arith)
            requires
                bb / unit >= 0x20_0000_0000_0000,
                unit >= 1,
        ;
        assert((b as nat) / (unit as nat) >= 0x20_0000_0000_0000);
        assert(nearest_double_with_unit(b as nat, unit as nat) == nearest_double_with_unit(
            b as nat,
            2 * (unit as nat),
        ));
        unit = unit * 2;
    }
    assert(unit <= 0xffff_ffff_ffff_ffff);
    let q = round_half_even_exec(bb, unit);
    assert(q <= bb / unit + 1);
    assert(q * unit <= 2 * bb) by (nonlinear_arith)
        requires
            q <= bb / unit + 1,
            unit <= bb,
            unit >= 1,
    ;
    q * unit
}

fn push_tenths(s: &mut String, n: u64)
    ensures
        final(s)@ == old(s)@ + tenths_text(n as nat),
{
    push_decimal(s, n / 10);
    push_char(s, '.');
    push_decimal(s, n % 10);
    assert(decimal((n % 10) as nat) == seq![digit_char((n % 10) as nat)]);
    assert(s@ =~= old(s)@ + tenths_text(n as nat));
}

fn push_hundredths(s: &mut String, n: u64)
    ensures
        final(s)@ == old(s)@ + hundredths_text(n as nat),
{
    push_decimal(s, n / 100);
    push_char(s, '.');
    push_decimal(s, (n / 10) % 10);
    push_decimal(s, n % 10);
    assert(decimal(((n / 10) % 10) as nat) == seq![digit_char(((n / 10) % 10) as nat)]);
    assert(decimal((n % 10) as nat) == seq![digit_char((n % 10) as nat)]);
    assert(s@ =~= old(s)@ + hundredths_text(n as nat));
}

/// A file size for display, such as `512 B`, `1.5 KB`, `12.3 MB` or `1.25 GB`.
pub fn format_file_size(bytes: u64) -> (s: String)
    ensures
        s@ == file_size_text(bytes),
{
    let mut s = String::new();
    if bytes < 1024 {
        push_decimal(&mut s, bytes);
        s.append(" B");
    } else if bytes < 1024 * 1024 {
        let n = round_half_even_exec(10 * bytes as u128, 1024);
        push_tenths(&mut s, n as u64);
        s.append(" KB");
    } else if bytes < 1024 * 1024 * 1024 {
        let n = round_half_even_exec(10 * bytes as u128, 1024 * 1024);
        push_tenths(&mut s, n as u64);
        s.append(" MB");
    } else {
        let f = nearest_double_exec(bytes);
        let n = round_half_even_exec(100 * f, 1024 * 1024 * 1024);
        assert(n <= 0xffff_ffff_ffff_ffffu128);
        push_hundredths(&mut s, n as u64);
        s.append(" GB");
    }
    s
}

} // verus!
