//! Instant replay: a rolling window of the most recent frames, sized by a
//! duration and a frame rate, that can be handed to the encoder on demand.

use vstd::prelude::*;
use std::collections::VecDeque;
use crate::encoder::{push_str, push_text, texts};
use crate::streaming::{resolution_string, resolution_text};
use crate::text::{decimal, decimal_string};

verus! {

/// How much gameplay the replay buffer keeps.
#[derive(Debug, Clone, Copy, PartialEq, Eq, Structural)]
pub enum ReplayDuration {
    Seconds15,
    Seconds30,
    Seconds60,
    Minutes2,
    Minutes5,
    Custom(u32),
}

/// The length of a replay duration in seconds.
pub open spec fn duration_seconds(d: ReplayDuration) -> u32 {
    match d {
        ReplayDuration::Seconds15 => 15,
        ReplayDuration::Seconds30 => 30,
        ReplayDuration::Seconds60 => 60,
        ReplayDuration::Minutes2 => 120,
        ReplayDuration::Minutes5 => 300,
        ReplayDuration::Custom(s) => s,
    }
}

/// The name of a replay duration as the user sees it.
pub open spec fn duration_name(d: ReplayDuration) -> Seq<char> {
    match d {
        ReplayDuration::Seconds15 => "15 seconds"@,
        ReplayDuration::Seconds30 => "30 seconds"@,
        ReplayDuration::Seconds60 => "60 seconds"@,
        ReplayDuration::Minutes2 => "2 minutes"@,
        ReplayDuration::Minutes5 => "5 minutes"@,
        ReplayDuration::Custom(s) => decimal(s as nat) + " seconds"@,
    }
}

impl ReplayDuration {
    /// The duration in seconds.
    pub fn as_seconds(&self) -> (s: u32)
        ensures
            s == duration_seconds(*self),
    {
        match self {
            ReplayDuration::Seconds15 => 15,
            ReplayDuration::Seconds30 => 30,
            ReplayDuration::Seconds60 => 60,
            ReplayDuration::Minutes2 => 120,
            ReplayDuration::Minutes5 => 300,
            ReplayDuration::Custom(s) => *s,
        }
    }

    /// The duration's display name, such as `2 minutes` or `45 seconds`.
    pub fn display_name(&self) -> (s: String)
        ensures
            s@ == duration_name(*self),
    {
        match self {
            ReplayDuration::Seconds15 => String::from_str("15 seconds"),
            ReplayDuration::Seconds30 => String::from_str("30 seconds"),
            ReplayDuration::Seconds60 => String::from_str("60 seconds"),
            ReplayDuration::Minutes2 => String::from_str("2 minutes"),
            ReplayDuration::Minutes5 => String::from_str("5 minutes"),
            ReplayDuration::Custom(s) => {
                let mut r = decimal_string(*s as u64);
                r.append(" seconds");
                r
            },
        }
    }
}

/// Replay settings.
#[derive(Debug, Clone)]
pub struct ReplayConfig {
    pub enabled: bool,
    pub duration: ReplayDuration,
    pub save_directory: String,
    pub hotkey: String,
}

impl ReplayConfig {
    /// The default settings with replays saved to `save_directory`:
    /// disabled, thirty seconds, saved with F10.
    pub fn default_in(save_directory: String) -> (c: Self)
        ensures
            !c.enabled,
            c.duration == ReplayDuration::Seconds30,
            c.save_directory == save_directory,
            c.hotkey@ == "F10"@,
    {
        ReplayConfig {
            enabled: false,
            duration: ReplayDuration::Seconds30,
            save_directory,
            hotkey: String::from_str("F10"),
        }
    }
}

/// One captured frame held by the replay buffer.
pub struct ReplayFrame {
    pub data: Vec<u8>,
    pub width: u32,
    pub height: u32,
    pub timestamp_ns: u64,
}

/// The last `max` elements of `s` (all of `s` when it is shorter).
pub open spec fn last_n<T>(s: Seq<T>, max: nat) -> Seq<T> {
    if s.len() <= max {
        s
    } else {
        s.skip(s.len() - max)
    }
}

/// The total number of data bytes in a run of frames.
pub open spec fn frames_bytes(s: Seq<ReplayFrame>) -> nat
    decreases s.len(),
{
    if s.len() == 0 {
        0
    } else {
        frames_bytes(s.drop_last()) + s.last().data@.len()
    }
}

/// Everything a replay buffer holds.
pub struct ReplayBufferState {
    pub config: ReplayConfig,
    pub frames: Seq<ReplayFrame>,
    pub running: bool,
    pub max_frames: usize,
    pub fps: u32,
}

/// A rolling window over the most recent captured frames.
pub struct ReplayBuffer {
    config: ReplayConfig,
    buffer: VecDeque<ReplayFrame>,
    running: bool,
    max_frames: usize,
    fps: u32,
}

impl View for ReplayBuffer {
    type V = ReplayBufferState;

    closed spec fn view(&self) -> ReplayBufferState {
        ReplayBufferState {
            config: self.config,
            frames: self.buffer@,
            running: self.running,
            max_frames: self.max_frames,
            fps: self.fps,
        }
    }
}

/// The state of a replay buffer as its owner sees it.
pub struct ReplayStatus {
    pub enabled: bool,
    pub buffer_frames: usize,
    pub max_frames: usize,
    pub max_seconds: u32,
    pub fps: u32,
    pub memory_bytes: u128,
}

/// The arguments that encode raw BGRA frames of the given size and rate into
/// `output` with the fast software encoder.
pub open spec fn replay_encode_args(width: u32, height: u32, fps: u32, output: Seq<char>) -> Seq<Seq<char>> {
    seq![
        "-y"@, "-f"@, "rawvideo"@, "-pix_fmt"@, "bgra"@, "-s"@, resolution_text(width, height),
        "-r"@, decimal(fps as nat), "-i"@, "pipe:0"@, "-c:v"@, "libx264"@, "-preset"@,
        "ultrafast"@, "-crf"@, "23"@, "-pix_fmt"@, "yuv420p"@, output,
    ]
}

impl ReplayBuffer {
    /// An idle buffer that keeps `duration * fps` frames.
    pub fn new(config: ReplayConfig, fps: u32) -> (b: Self)
        requires
            duration_seconds(config.duration) * fps <= u32::MAX,
        ensures
            b@.config == config,
            b@.frames.len() == 0,
            !b@.running,
            b@.max_frames == duration_seconds(config.duration) * fps,
            b@.fps == fps,
    {
        let max_frames = (config.duration.as_seconds() * fps) as usize;
        ReplayBuffer {
            config,
            buffer: VecDeque::with_capacity(max_frames),
            running: false,
            max_frames,
            fps,
        }
    }

    /// Starts accumulating frames.
    pub fn start(&mut self)
        ensures
            final(self)@.running,
            final(self)@.frames == old(self)@.frames,
            final(self)@.config == old(self)@.config,
            final(self)@.max_frames == old(self)@.max_frames,
            final(self)@.fps == old(self)@.fps,
    {
        self.running = true;
    }

    /// Stops accumulating frames and drops the ones held.
    pub fn stop(&mut self)
        ensures
            !final(self)@.running,
            final(self)@.frames.len() == 0,
            final(self)@.config == old(self)@.config,
            final(self)@.max_frames == old(self)@.max_frames,
            final(self)@.fps == old(self)@.fps,
    {
        self.running = false;
        self.buffer.clear();
    }

    /// Adds a frame to a running buffer, dropping the oldest frames so that
    /// the buffer holds the latest `max_frames`; a stopped buffer ignores it.
    pub fn push_frame(&mut self, data: Vec<u8>, width: u32, height: u32, timestamp_ns: u64)
        requires
            old(self)@.running ==> old(self)@.max_frames > 0,
        ensures
            old(self)@.running ==> final(self)@.frames == last_n(
                old(self)@.frames.push(ReplayFrame { data, width, height, timestamp_ns }),
                old(self)@.max_frames as nat,
            ),
            !old(self)@.running ==> final(self)@.frames == old(self)@.frames,
            final(self)@.running == old(self)@.running,
            final(self)@.config == old(self)@.config,
            final(self)@.max_frames == old(self)@.max_frames,
            final(self)@.fps == old(self)@.fps,
    {
        if !self.running {
            return;
        }
        let frame = ReplayFrame { data, width, height, timestamp_ns };
        let ghost all = old(self)@.frames.push(frame);
        let ghost start = self.buffer@;
        let ghost mut dropped: int = 0;
        while self.buffer.len() >= self.max_frames
            invariant
                self.max_frames > 0,
                self.max_frames == old(self)@.max_frames,
                self.running == old(self)@.running,
                self.config == old(self)@.config,
                self.fps == old(self)@.fps,
                0 <= dropped <= start.len(),
                self.buffer@ == start.skip(dropped),
                start == old(self)@.frames,
                self.buffer.len() > 0 ==> dropped <= start.len(),
                dropped > 0 ==> start.len() - (dropped - 1) >= self.max_frames,
            decreases self.buffer.len(),
        {
            self.buffer.pop_front();
            proof {
                dropped = dropped + 1;
                assert(self.buffer@ =~= start.skip(dropped));
            }
        }
        self.buffer.push_back(frame);
        proof {
            if all.len() > self.max_frames {
                assert(dropped == all.len() - self.max_frames);
            } else {
                assert(dropped == 0);
            }
        }
        assert(self.buffer@ =~= last_n(all, self.max_frames as nat));
    }

    /// The number of frames held.
    pub fn frame_count(&self) -> (n: usize)
        ensures
            n == self@.frames.len(),
    {
        self.buffer.len()
    }

    /// The pixel data of the `i`-th oldest frame held.
    pub fn frame_data(&self, i: usize) -> (d: &Vec<u8>)
        requires
            i < self@.frames.len(),
        ensures
            *d == self@.frames[i as int].data,
    {
        &self.buffer[i].data
    }

    /// The encoder arguments that turn the held frames into the video file
    /// `output`: raw BGRA frames at the buffer's frame rate and the size of
    /// the oldest frame held. An empty buffer cannot be saved.
    pub fn export_args(&self, output: &str) -> (r: Result<Vec<String>, String>)
        ensures
            self@.frames.len() == 0 <==> r is Err,
            r matches Err(e) ==> e@ == "Replay buffer is empty"@,
            r matches Ok(args) ==> texts(args@) == replay_encode_args(
                self@.frames[0].width,
                self@.frames[0].height,
                self@.fps,
                output@,
            ),
    {
        if self.buffer.len() == 0 {
            return Err(String::from_str("Replay buffer is empty"));
        }
        let first = &self.buffer[0];
        let mut args: Vec<String> = Vec::new();
        assert(texts(args@) =~= Seq::<Seq<char>>::empty());
        push_str(&mut args, "-y");
        push_str(&mut args, "-f");
        push_str(&mut args, "rawvideo");
        push_str(&mut args, "-pix_fmt");
        push_str(&mut args, "bgra");
        push_str(&mut args, "-s");
        push_text(&mut args, resolution_string(first.width, first.height));
        push_str(&mut args, "-r");
        push_text(&mut args, decimal_string(self.fps as u64));
        push_str(&mut args, "-i");
        push_str(&mut args, "pipe:0");
        push_str(&mut args, "-c:v");
        push_str(&mut args, "libx264");
        push_str(&mut args, "-preset");
        push_str(&mut args, "ultrafast");
        push_str(&mut args, "-crf");
        push_str(&mut args, "23");
        push_str(&mut args, "-pix_fmt");
        push_str(&mut args, "yuv420p");
        push_str(&mut args, output);
        assert(texts(args@) =~= replay_encode_args(first.width, first.height, self.fps, output@));
        Ok(args)
    }

    /// Whether the buffer is accumulating frames, how full it is, its
    /// capacity and the memory its frames take.
    pub fn get_status(&self) -> (s: ReplayStatus)
        ensures
            s.enabled == self@.running,
            s.buffer_frames == self@.frames.len(),
            s.max_frames == self@.max_frames,
            s.max_seconds == duration_seconds(self@.config.duration),
            s.fps == self@.fps,
            s.memory_bytes == frames_bytes(self@.frames),
    {
        let mut memory: u128 = 0;
        let mut i: usize = 0;
        assert(self.buffer@.take(0) =~= Seq::<ReplayFrame>::empty());
        while i < self.buffer.len()
            invariant
                i <= self.buffer@.len(),
                memory == frames_bytes(self.buffer@.take(i as int)),
                memory <= i * 0xffff_ffff_ffff_ffffu128,
            decreases self.buffer@.len() - i,
        {
            let n = self.buffer[i].data.len();
            assert(self.buffer@.take(i + 1).drop_last() =~= self.buffer@.take(i as int));
            assert(memory + n <= (i + 1) * 0xffff_ffff_ffff_ffffu128) by (nonlinear_arith)
                requires
                    memory <= i * 0xffff_ffff_ffff_ffffu128,
                    n <= 0xffff_ffff_ffff_ffffu128,
            ;
            memory = memory + n as u128;
            i = i + 1;
        }
        assert(self.buffer@.take(i as int) =~= self.buffer@);
        ReplayStatus {
            enabled: self.running,
            buffer_frames: self.buffer.len(),
            max_frames: self.max_frames,
            max_seconds: self.config.duration.as_seconds(),
            fps: self.fps,
            memory_bytes: memory,
        }
    }

    /// Whether the buffer is accumulating frames.
    pub fn is_running(&self) -> (b: bool)
        ensures
            b == self@.running,
    {
        self.running
    }

    /// The replay settings.
    pub fn config(&self) -> (c: &ReplayConfig)
        ensures
            *c == self@.config,
    {
        &self.config
    }
}


/// The frames a running buffer of capacity `max` holds after each frame of
/// `pushed` has been pushed, in order, onto the frames `held`.
pub open spec fn after_pushes(held: Seq<ReplayFrame>, pushed: Seq<ReplayFrame>, max: nat) -> Seq<ReplayFrame>
    decreases pushed.len(),
{
    if pushed.len() == 0 {
        held
    } else {
        last_n(after_pushes(held, pushed.drop_last(), max).push(pushed.last()), max)
    }
}

proof fn lemma_last_n_push<T>(s: Seq<T>, x: T, max: nat)
    requires
        max > 0,
    ensures
        last_n(last_n(s, max).push(x), max) == last_n(s.push(x), max),
{
    if s.len() > max {
        let k = s.len() - max;
        assert(s.skip(k).push(x).skip(1) =~= s.push(x).skip(k + 1));
    }
}

/// Law of the replay buffer: pushing frames one at a time into a running
/// buffer that holds no more than its capacity `max` leaves exactly the last
/// `max` frames of everything held and pushed, in order, and never more
/// than `max` frames.
pub proof fn law_replay_keeps_latest(held: Seq<ReplayFrame>, pushed: Seq<ReplayFrame>, max: nat)
    requires
        max > 0,
        held.len() <= max,
    ensures
        after_pushes(held, pushed, max) == last_n(held + pushed, max),
        after_pushes(held, pushed, max).len() <= max,
    decreases pushed.len(),
{
    if pushed.len() == 0 {
        assert(held + pushed =~= held);
    } else {
        law_replay_keeps_latest(held, pushed.drop_last(), max);
        lemma_last_n_push(held + pushed.drop_last(), pushed.last(), max);
        assert((held + pushed.drop_last()).push(pushed.last()) =~= held + pushed);
    }
}


/// Law of replay durations: each duration lasts what its name says, that
/// many seconds, or that many minutes of sixty seconds.
pub proof fn law_duration_matches_name(d: ReplayDuration)
    ensures
        duration_name(d) == decimal(duration_seconds(d) as nat) + " seconds"@
            || (duration_seconds(d) % 60 == 0
                && duration_name(d) == decimal((duration_seconds(d) / 60) as nat) + " minutes"@),
{
    reveal_strlit("15 seconds");
    reveal_strlit("30 seconds");
    reveal_strlit("60 seconds");
    reveal_strlit("2 minutes");
    reveal_strlit("5 minutes");
    reveal_strlit(" seconds");
    reveal_strlit(" minutes");
    reveal_with_fuel(decimal, 3);
    match d {
        ReplayDuration::Seconds15 => {
            assert(duration_name(d) =~= decimal(15) + " seconds"@);
        },
        ReplayDuration::Seconds30 => {
            assert(duration_name(d) =~= decimal(30) + " seconds"@);
        },
        ReplayDuration::Seconds60 => {
            assert(duration_name(d) =~= decimal(60) + " seconds"@);
        },
        ReplayDuration::Minutes2 => {
            assert(duration_name(d) =~= decimal(2) + " minutes"@);
        },
        ReplayDuration::Minutes5 => {
            assert(duration_name(d) =~= decimal(5) + " minutes"@);
        },
        ReplayDuration::Custom(_) => {},
    }
}


/// Law of the rolling window: with room for `max` frames, the frames kept
/// out of a run `s` are its latest ones, as many as fit, in their order.
pub proof fn law_last_n_keeps_latest(s: Seq<ReplayFrame>, max: nat)
    ensures
        last_n(s, max).len() == if s.len() <= max { s.len() } else { max },
        forall|i: int| 0 <= i < last_n(s, max).len()
            ==> #[trigger] last_n(s, max)[i] == s[s.len() - last_n(s, max).len() + i],
{
}

} // verus!
