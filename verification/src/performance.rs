//! The adaptive engine's modes, how a mode is chosen by name, and the
//! pieces of performance sampling that are plain integer work.

use vstd::prelude::*;
use crate::text::same_text;

verus! {

/// A preset of the adaptive engine.
#[derive(Debug, Clone, Copy, PartialEq, Eq, Structural)]
pub enum AdaptiveMode {
    UltraLite,
    LowEnd,
    Balanced,
    Quality,
    Streaming,
    Custom,
}

impl Default for AdaptiveMode {
    /// The balanced mode.
    fn default() -> (m: Self)
        ensures
            m == AdaptiveMode::Balanced,
    {
        AdaptiveMode::Balanced
    }
}

/// What `str::to_lowercase` makes of a text.
pub uninterp spec fn lowercase_of(s: Seq<char>) -> Seq<char>;

/// Calls `str::to_lowercase`; its result is named `lowercase_of` of the
/// text, a function of the text alone (Unicode case mapping).
#[verifier::external_body]
fn to_lower_case(s: &str) -> (r: String)
    ensures
        r@ == lowercase_of(s@),
{
    s.to_lowercase()
}

/// The mode that a lower-case mode name selects; unknown names select the
/// custom mode.
pub open spec fn mode_for_lowercase(name: Seq<char>) -> AdaptiveMode {
    if name == "ultralite"@ || name == "ultra_lite"@ {
        AdaptiveMode::UltraLite
    } else if name == "lowend"@ || name == "low_end"@ {
        AdaptiveMode::LowEnd
    } else if name == "balanced"@ {
        AdaptiveMode::Balanced
    } else if name == "quality"@ {
        AdaptiveMode::Quality
    } else if name == "streaming"@ {
        AdaptiveMode::Streaming
    } else {
        AdaptiveMode::Custom
    }
}

/// The mode that an already lower-cased mode name selects.
pub fn adaptive_mode_for_lowercase(name: &str) -> (m: AdaptiveMode)
    ensures
        m == mode_for_lowercase(name@),
{
    if same_text(name, "ultralite") || same_text(name, "ultra_lite") {
        AdaptiveMode::UltraLite
    } else if same_text(name, "lowend") || same_text(name, "low_end") {
        AdaptiveMode::LowEnd
    } else if same_text(name, "balanced") {
        AdaptiveMode::Balanced
    } else if same_text(name, "quality") {
        AdaptiveMode::Quality
    } else if same_text(name, "streaming") {
        AdaptiveMode::Streaming
    } else {
        AdaptiveMode::Custom
    }
}

/// The mode that a mode name selects, in any letter case.
pub fn adaptive_mode_from_name(name: &str) -> (m: AdaptiveMode)
    ensures
        m == mode_for_lowercase(lowercase_of(name@)),
{
    let lower = to_lower_case(name);
    adaptive_mode_for_lowercase(lower.as_str())
}

/// A 64-bit tick count from its high and low 32-bit halves.
pub fn filetime_to_u64(high: u32, low: u32) -> (t: u64)
    ensures
        t == high as nat * 0x1_0000_0000 + low as nat,
{
    let h = high as u64;
    let l = low as u64;
    assert((h << 32u64) | l == h * 0x1_0000_0000 + l) by (bit_vector)
        requires
            h <= 0xffff_ffff,
            l <= 0xffff_ffff,
    ;
    (h << 32u64) | l
}

/// The overall health that a number of performance warnings amounts to.
pub open spec fn health_for_warnings(count: nat) -> Seq<char> {
    if count == 0 {
        "Optimal"@
    } else if count == 1 {
        "Moderate"@
    } else {
        "Strained"@
    }
}

/// `Optimal` with no warnings, `Moderate` with one, `Strained` with more.
pub fn health_status(warning_count: usize) -> (s: String)
    ensures
        s@ == health_for_warnings(warning_count as nat),
{
    if warning_count == 0 {
        String::from_str("Optimal")
    } else if warning_count == 1 {
        String::from_str("Moderate")
    } else {
        String::from_str("Strained")
    }
}

/// The system's CPU time counters at one instant, in 100 ns ticks: the time
/// spent idle, in kernel mode (idle time included) and in user mode.
#[derive(Debug, Clone, Copy)]
pub struct SystemTimes {
    pub idle: u64,
    pub kernel: u64,
    pub user: u64,
}

/// The process's CPU time counters at one instant, in 100 ns ticks, with
/// the monotonic clock reading, in nanoseconds, at which they were read.
#[derive(Debug, Clone, Copy)]
pub struct ProcessTimes {
    pub kernel: u64,
    pub user: u64,
    pub read_at_ns: u64,
}

/// How far a counter moved from `before` to `now`; a counter that went
/// back counts as not having moved.
pub open spec fn moved(now: u64, before: u64) -> nat {
    if now >= before {
        (now - before) as nat
    } else {
        0
    }
}

/// The CPU ticks that passed between two system readings, and how many of
/// them were busy (not idle).
pub open spec fn system_ticks(before: SystemTimes, now: SystemTimes) -> (nat, nat) {
    let total = moved(now.kernel, before.kernel) + moved(now.user, before.user);
    let idle = moved(now.idle, before.idle);
    (if total >= idle { (total - idle) as nat } else { 0 }, total)
}

/// The CPU ticks that the process used between two readings, and the
/// nanoseconds that passed between them.
pub open spec fn process_ticks(before: ProcessTimes, now: ProcessTimes) -> (nat, nat) {
    (moved(now.kernel, before.kernel) + moved(now.user, before.user), moved(now.read_at_ns, before.read_at_ns))
}

/// The ticks between the last reading, if any, and `now` can be counted in
/// 64 bits.
pub open spec fn system_reading_fits(last: Option<SystemTimes>, now: SystemTimes) -> bool {
    match last {
        Some(before) => system_ticks(before, now).1 <= u64::MAX,
        None => true,
    }
}

/// The ticks between the last reading, if any, and `now` can be counted in
/// 64 bits.
pub open spec fn process_reading_fits(last: Option<ProcessTimes>, now: ProcessTimes) -> bool {
    match last {
        Some(before) => process_ticks(before, now).0 <= u64::MAX,
        None => true,
    }
}

/// `x + y` on a 64-bit counter that wraps around.
pub open spec fn wrapped(x: u64, y: u64) -> u64 {
    ((x + y) % 0x1_0000_0000_0000_0000) as u64
}

/// Everything the performance monitor holds.
pub struct PerformanceMonitorState {
    pub mode: AdaptiveMode,
    pub bytes_written: u64,
    pub bytes_uploaded: u64,
    pub frames_captured: u64,
    pub frames_dropped: u64,
    pub last_system_times: Option<SystemTimes>,
    pub last_process_times: Option<ProcessTimes>,
}

/// The adaptive engine's mode, the traffic and frame counters, and the last
/// CPU time readings against which the next sample is measured.
pub struct PerformanceMonitor {
    mode: AdaptiveMode,
    bytes_written: u64,
    bytes_uploaded: u64,
    frames_captured: u64,
    frames_dropped: u64,
    last_system_times: Option<SystemTimes>,
    last_process_times: Option<ProcessTimes>,
}

impl View for PerformanceMonitor {
    type V = PerformanceMonitorState;

    closed spec fn view(&self) -> PerformanceMonitorState {
        PerformanceMonitorState {
            mode: self.mode,
            bytes_written: self.bytes_written,
            bytes_uploaded: self.bytes_uploaded,
            frames_captured: self.frames_captured,
            frames_dropped: self.frames_dropped,
            last_system_times: self.last_system_times,
            last_process_times: self.last_process_times,
        }
    }
}

impl PerformanceMonitor {
    /// A monitor in the balanced mode with every counter at zero and no
    /// reading taken yet.
    pub fn new() -> (m: Self)
        ensures
            m@ == (PerformanceMonitorState {
                mode: AdaptiveMode::Balanced,
                bytes_written: 0,
                bytes_uploaded: 0,
                frames_captured: 0,
                frames_dropped: 0,
                last_system_times: None,
                last_process_times: None,
            }),
    {
        PerformanceMonitor {
            mode: AdaptiveMode::Balanced,
            bytes_written: 0,
            bytes_uploaded: 0,
            frames_captured: 0,
            frames_dropped: 0,
            last_system_times: None,
            last_process_times: None,
        }
    }

    /// Switches the adaptive engine to `mode`.
    pub fn set_mode(&mut self, mode: AdaptiveMode)
        ensures
            final(self)@ == (PerformanceMonitorState { mode, ..old(self)@ }),
    {
        self.mode = mode;
    }

    /// The adaptive engine's mode.
    pub fn get_mode(&self) -> (m: AdaptiveMode)
        ensures
            m == self@.mode,
    {
        self.mode
    }

    /// Counts `bytes` more written to disk.
    pub fn record_bytes_written(&mut self, bytes: u64)
        ensures
            final(self)@ == (PerformanceMonitorState {
                bytes_written: wrapped(old(self)@.bytes_written, bytes),
                ..old(self)@
            }),
    {
        self.bytes_written = self.bytes_written.wrapping_add(bytes);
    }

    /// Counts `bytes` more uploaded.
    pub fn record_bytes_uploaded(&mut self, bytes: u64)
        ensures
            final(self)@ == (PerformanceMonitorState {
                bytes_uploaded: wrapped(old(self)@.bytes_uploaded, bytes),
                ..old(self)@
            }),
    {
        self.bytes_uploaded = self.bytes_uploaded.wrapping_add(bytes);
    }

    /// Counts one more captured frame.
    pub fn record_frame_captured(&mut self)
        ensures
            final(self)@ == (PerformanceMonitorState {
                frames_captured: wrapped(old(self)@.frames_captured, 1),
                ..old(self)@
            }),
    {
        self.frames_captured = self.frames_captured.wrapping_add(1);
    }

    /// Counts one more dropped frame.
    pub fn record_frame_dropped(&mut self)
        ensures
            final(self)@ == (PerformanceMonitorState {
                frames_dropped: wrapped(old(self)@.frames_dropped, 1),
                ..old(self)@
            }),
    {
        self.frames_dropped = self.frames_dropped.wrapping_add(1);
    }

    /// The number of frames captured so far.
    pub fn frames_captured(&self) -> (n: u64)
        ensures
            n == self@.frames_captured,
    {
        self.frames_captured
    }

    /// The number of frames dropped so far.
    pub fn frames_dropped(&self) -> (n: u64)
        ensures
            n == self@.frames_dropped,
    {
        self.frames_dropped
    }

    /// The last system CPU time reading, if any.
    pub fn last_system_times(&self) -> (t: Option<SystemTimes>)
        ensures
            t == self@.last_system_times,
    {
        self.last_system_times
    }

    /// The last process CPU time reading, if any.
    pub fn last_process_times(&self) -> (t: Option<ProcessTimes>)
        ensures
            t == self@.last_process_times,
    {
        self.last_process_times
    }

    /// Takes the system CPU time reading `now`, which the next one is
    /// measured against, and gives the busy and total ticks since the last
    /// reading; nothing on the first reading or when no tick passed.
    pub fn system_cpu_ticks(&mut self, now: SystemTimes) -> (r: Option<(u64, u64)>)
        requires
            system_reading_fits(old(self)@.last_system_times, now),
        ensures
            final(self)@ == (PerformanceMonitorState { last_system_times: Some(now), ..old(self)@ }),
            match old(self)@.last_system_times {
                Some(before) => if system_ticks(before, now).1 > 0 {
                    r matches Some(t) && t.0 == system_ticks(before, now).0 && t.1 == system_ticks(before, now).1
                } else {
                    r is None
                },
                None => r is None,
            },
            r matches Some(t) ==> 0 < t.1 && t.0 <= t.1,
    {
        let last = self.last_system_times;
        self.last_system_times = Some(now);
        match last {
            Some(before) => {
                let idle = now.idle.saturating_sub(before.idle);
                let kernel = now.kernel.saturating_sub(before.kernel);
                let user = now.user.saturating_sub(before.user);
                let total = kernel + user;
                if total > 0 {
                    Some((total.saturating_sub(idle), total))
                } else {
                    None
                }
            },
            None => None,
        }
    }

    /// Takes the process CPU time reading `now`, which the next one is
    /// measured against, and gives the CPU ticks the process used and the
    /// nanoseconds that passed since the last reading; nothing on the first.
    pub fn process_cpu_ticks(&mut self, now: ProcessTimes) -> (r: Option<(u64, u64)>)
        requires
            process_reading_fits(old(self)@.last_process_times, now),
        ensures
            final(self)@ == (PerformanceMonitorState { last_process_times: Some(now), ..old(self)@ }),
            match old(self)@.last_process_times {
                Some(before) => r matches Some(t) && t.0 == process_ticks(before, now).0
                    && t.1 == process_ticks(before, now).1,
                None => r is None,
            },
    {
        let last = self.last_process_times;
        self.last_process_times = Some(now);
        match last {
            Some(before) => {
                let kernel = now.kernel.saturating_sub(before.kernel);
                let user = now.user.saturating_sub(before.user);
                Some((kernel + user, now.read_at_ns.saturating_sub(before.read_at_ns)))
            },
            None => None,
        }
    }
}

} // verus!
