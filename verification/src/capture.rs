//! Screen capture settings: what is captured, at which size and rate, and
//! which top-level windows are offered as capture sources.

use vstd::prelude::*;
use crate::text::{contains, contains_str};

verus! {

/// What the screen capture records.
#[derive(Debug, Clone)]
pub enum CaptureSource {
    Monitor { hmonitor: isize, name: String },
    Window { hwnd: isize, title: String },
    Region { x: i32, y: i32, width: u32, height: u32 },
}

/// Screen capture settings.
#[derive(Debug, Clone)]
pub struct CaptureConfig {
    pub source: CaptureSource,
    pub output_width: u32,
    pub output_height: u32,
    pub fps: u32,
    pub capture_cursor: bool,
    pub highlight_cursor: bool,
}

/// `c` holds the default capture settings: the primary monitor at
/// 1920x1080, 60 fps, with the cursor and without its highlight.
pub open spec fn is_default_capture(c: CaptureConfig) -> bool {
    &&& c.source matches CaptureSource::Monitor { hmonitor, name } && hmonitor == 0 && name@ == "Primary"@
    &&& c.output_width == 1920
    &&& c.output_height == 1080
    &&& c.fps == 60
    &&& c.capture_cursor
    &&& !c.highlight_cursor
}

impl Default for CaptureConfig {
    /// The primary monitor at 1920x1080, 60 fps, with the cursor.
    fn default() -> (c: Self)
        ensures
            is_default_capture(c),
    {
        CaptureConfig {
            source: CaptureSource::Monitor { hmonitor: 0, name: String::from_str("Primary") },
            output_width: 1920,
            output_height: 1080,
            fps: 60,
            capture_cursor: true,
            highlight_cursor: false,
        }
    }
}

impl CaptureConfig {
    /// The time between two frames at the configured rate, in nanoseconds,
    /// rounded down; the capture waits out what is left of it before it
    /// takes the next frame.
    pub fn frame_interval_ns(&self) -> (ns: u64)
        requires
            self.fps > 0,
        ensures
            ns == 1_000_000_000int / (self.fps as int),
    {
        1_000_000_000u64 / (self.fps as u64)
    }
}

/// A captured frame of BGRA pixels.
pub struct CapturedFrame {
    pub data: Vec<u8>,
    pub width: u32,
    pub height: u32,
    pub stride: u32,
    pub timestamp_ns: u64,
}

/// A visible window with this title is offered as a capture source: the
/// title is not empty and names none of the system windows
/// `Program Manager`, `Settings` or `Microsoft Text Input`.
pub open spec fn offered_window_title(title: Seq<char>) -> bool {
    &&& title.len() > 0
    &&& !contains(title, "Program Manager"@)
    &&& !contains(title, "Settings"@)
    &&& !contains(title, "Microsoft Text Input"@)
}

/// Whether a visible window with this title is offered as a capture source.
pub fn is_offered_window_title(title: &str) -> (b: bool)
    ensures
        b == offered_window_title(title@),
{
    if title.is_empty() {
        return false;
    }
    !contains_str(title, "Program Manager") && !contains_str(title, "Settings")
        && !contains_str(title, "Microsoft Text Input")
}

} // verus!
