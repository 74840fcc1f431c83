//! Encoder settings and the command lines that drive the external encoder
//! process: presets per hardware encoder, encoder names, rate control,
//! profiles, keyframe spacing, and reading the encoder's own reports.

use vstd::prelude::*;
use crate::hardware::{Codec, HardwareEncoder};
use crate::text::{
    before_char, chars_of, contains, contains_str, decimal, decimal_string, has_suffix, push_char,
    split_at_char, string_from_chars,
};
use crate::streaming::{resolution_string, resolution_text};

verus! {

/// Speed/quality trade-off of the encoder.
#[derive(Debug, Clone, Copy, PartialEq, Eq, Structural)]
pub enum EncoderPreset {
    UltraFast,
    SuperFast,
    VeryFast,
    Fast,
    Medium,
    Slow,
    Quality,
}

/// The encoder's own name for a preset.
pub open spec fn preset_text(p: EncoderPreset, e: HardwareEncoder) -> Seq<char> {
    match e {
        HardwareEncoder::Nvenc => match p {
            EncoderPreset::UltraFast => "p1"@,
            EncoderPreset::SuperFast => "p2"@,
            EncoderPreset::VeryFast => "p3"@,
            EncoderPreset::Fast => "p4"@,
            EncoderPreset::Medium => "p5"@,
            EncoderPreset::Slow => "p6"@,
            EncoderPreset::Quality => "p7"@,
        },
        HardwareEncoder::Amf => match p {
            EncoderPreset::UltraFast | EncoderPreset::SuperFast | EncoderPreset::VeryFast => "speed"@,
            EncoderPreset::Fast | EncoderPreset::Medium => "balanced"@,
            EncoderPreset::Slow | EncoderPreset::Quality => "quality"@,
        },
        HardwareEncoder::Qsv => match p {
            EncoderPreset::UltraFast | EncoderPreset::SuperFast => "veryfast"@,
            EncoderPreset::VeryFast | EncoderPreset::Fast => "fast"@,
            EncoderPreset::Medium => "medium"@,
            EncoderPreset::Slow | EncoderPreset::Quality => "slow"@,
        },
        HardwareEncoder::Software => match p {
            EncoderPreset::UltraFast => "ultrafast"@,
            EncoderPreset::SuperFast => "superfast"@,
            EncoderPreset::VeryFast => "veryfast"@,
            EncoderPreset::Fast => "fast"@,
            EncoderPreset::Medium => "medium"@,
            EncoderPreset::Slow => "slow"@,
            EncoderPreset::Quality => "veryslow"@,
        },
    }
}

impl EncoderPreset {
    /// The preset name that `encoder` understands for this preset.
    pub fn to_ffmpeg_preset(&self, encoder: &HardwareEncoder) -> (r: &str)
        ensures
            r@ == preset_text(*self, *encoder),
    {
        match encoder {
            HardwareEncoder::Nvenc => match self {
                EncoderPreset::UltraFast => "p1",
                EncoderPreset::SuperFast => "p2",
                EncoderPreset::VeryFast => "p3",
                EncoderPreset::Fast => "p4",
                EncoderPreset::Medium => "p5",
                EncoderPreset::Slow => "p6",
                EncoderPreset::Quality => "p7",
            },
            HardwareEncoder::Amf => match self {
                EncoderPreset::UltraFast | EncoderPreset::SuperFast | EncoderPreset::VeryFast => "speed",
                EncoderPreset::Fast | EncoderPreset::Medium => "balanced",
                EncoderPreset::Slow | EncoderPreset::Quality => "quality",
            },
            HardwareEncoder::Qsv => match self {
                EncoderPreset::UltraFast | EncoderPreset::SuperFast => "veryfast",
                EncoderPreset::VeryFast | EncoderPreset::Fast => "fast",
                EncoderPreset::Medium => "medium",
                EncoderPreset::Slow | EncoderPreset::Quality => "slow",
            },
            HardwareEncoder::Software => match self {
                EncoderPreset::UltraFast => "ultrafast",
                EncoderPreset::SuperFast => "superfast",
                EncoderPreset::VeryFast => "veryfast",
                EncoderPreset::Fast => "fast",
                EncoderPreset::Medium => "medium",
                EncoderPreset::Slow => "slow",
                EncoderPreset::Quality => "veryslow",
            },
        }
    }
}

/// Rate control mode.
#[derive(Debug, Clone, Copy, PartialEq, Eq, Structural)]
pub enum RateControl {
    CBR,
    VBR,
    CQP,
}

/// H.264 profile.
#[derive(Debug, Clone, Copy, PartialEq, Eq, Structural)]
pub enum H264Profile {
    Baseline,
    Main,
    High,
}

/// Encoder settings.
#[derive(Debug, Clone)]
pub struct EncoderConfig {
    pub encoder: HardwareEncoder,
    pub codec: Codec,
    pub width: u32,
    pub height: u32,
    pub fps: u32,
    pub bitrate_kbps: u32,
    pub max_bitrate_kbps: u32,
    pub keyframe_interval: u32,
    pub preset: EncoderPreset,
    pub profile: H264Profile,
    pub rate_control: RateControl,
    pub b_frames: u32,
    pub quality: u32,
    pub pixel_format: String,
}

/// `c` holds the default encoder settings: CPU H.264 at 1080p60,
/// 6000 kbit/s CBR (8000 peak), `ultrafast`, high profile, two B-frames, quality
/// 23, two-second keyframes, BGRA input.
pub open spec fn is_default_encoder(c: EncoderConfig) -> bool {
    &&& c.encoder == HardwareEncoder::Software
    &&& c.codec == Codec::H264
    &&& c.width == 1920
    &&& c.height == 1080
    &&& c.fps == 60
    &&& c.bitrate_kbps == 6000
    &&& c.max_bitrate_kbps == 8000
    &&& c.keyframe_interval == 2
    &&& c.preset == EncoderPreset::UltraFast
    &&& c.profile == H264Profile::High
    &&& c.rate_control == RateControl::CBR
    &&& c.b_frames == 2
    &&& c.quality == 23
    &&& c.pixel_format@ == "bgra"@
}

impl Default for EncoderConfig {
    /// CPU H.264 at 1080p60, 6000 kbit/s CBR (8000 peak), `ultrafast`, high
    /// profile, two B-frames, quality 23, two-second keyframes, BGRA input.
    fn default() -> (c: Self)
        ensures
            is_default_encoder(c),
    {
        EncoderConfig {
            encoder: HardwareEncoder::Software,
            codec: Codec::H264,
            width: 1920,
            height: 1080,
            fps: 60,
            bitrate_kbps: 6000,
            max_bitrate_kbps: 8000,
            keyframe_interval: 2,
            preset: EncoderPreset::UltraFast,
            profile: H264Profile::High,
            rate_control: RateControl::CBR,
            b_frames: 2,
            quality: 23,
            pixel_format: String::from_str("bgra"),
        }
    }
}

/// The encoder's name for a hardware encoder and codec.
pub open spec fn encoder_name_text(e: HardwareEncoder, c: Codec) -> Seq<char> {
    match (e, c) {
        (HardwareEncoder::Nvenc, Codec::H264) => "h264_nvenc"@,
        (HardwareEncoder::Nvenc, Codec::H265) => "hevc_nvenc"@,
        (HardwareEncoder::Nvenc, Codec::Av1) => "av1_nvenc"@,
        (HardwareEncoder::Amf, Codec::H264) => "h264_amf"@,
        (HardwareEncoder::Amf, Codec::H265) => "hevc_amf"@,
        (HardwareEncoder::Amf, Codec::Av1) => "av1_amf"@,
        (HardwareEncoder::Qsv, Codec::H264) => "h264_qsv"@,
        (HardwareEncoder::Qsv, Codec::H265) => "hevc_qsv"@,
        (HardwareEncoder::Qsv, Codec::Av1) => "av1_qsv"@,
        (HardwareEncoder::Software, Codec::H264) => "libx264"@,
        (HardwareEncoder::Software, Codec::H265) => "libx265"@,
        (HardwareEncoder::Software, Codec::Av1) => "libaom-av1"@,
    }
}

/// The user-facing name of a hardware encoder.
pub open spec fn encoder_label(e: HardwareEncoder) -> Seq<char> {
    match e {
        HardwareEncoder::Nvenc => "NVIDIA NVENC"@,
        HardwareEncoder::Amf => "AMD AMF"@,
        HardwareEncoder::Qsv => "Intel QSV"@,
        HardwareEncoder::Software => "Software (CPU)"@,
    }
}

/// The user-facing name of a codec.
pub open spec fn codec_label(c: Codec) -> Seq<char> {
    match c {
        Codec::H264 => "H.264"@,
        Codec::H265 => "H.265/HEVC"@,
        Codec::Av1 => "AV1"@,
    }
}

/// The views of a sequence of strings.
pub open spec fn texts(v: Seq<String>) -> Seq<Seq<char>> {
    v.map_values(|s: String| s@)
}

/// Appends a string to a list of strings.
pub fn push_text(v: &mut Vec<String>, s: String)
    ensures
        texts(final(v)@) == texts(old(v)@).push(s@),
{
    let ghost sv = s@;
    v.push(s);
    assert(texts(v@) =~= texts(old(v)@).push(sv));
}

/// Appends a string made from a literal to a list of strings.
pub fn push_str(v: &mut Vec<String>, s: &str)
    ensures
        texts(final(v)@) == texts(old(v)@).push(s@),
{
    push_text(v, String::from_str(s));
}

/// A bitrate argument: the number followed by `k`.
pub open spec fn kbps_text(n: nat) -> Seq<char> {
    decimal(n) + seq!['k']
}

fn kbps_string(n: u32) -> (s: String)
    ensures
        s@ == kbps_text(n as nat),
{
    let mut s = decimal_string(n as u64);
    push_char(&mut s, 'k');
    s
}

/// The arguments that describe raw video arriving on standard input.
pub open spec fn input_args(c: EncoderConfig) -> Seq<Seq<char>> {
    seq![
        "-y"@, "-f"@, "rawvideo"@, "-pix_fmt"@, c.pixel_format@, "-s"@,
        resolution_text(c.width, c.height), "-r"@, decimal(c.fps as nat), "-i"@, "pipe:0"@,
    ]
}

/// Constant-bitrate arguments at `kbps` kbit/s with a buffer of twice that.
pub open spec fn cbr_args(kbps: nat) -> Seq<Seq<char>> {
    seq!["-b:v"@, kbps_text(kbps), "-maxrate"@, kbps_text(kbps), "-bufsize"@, kbps_text(2 * kbps)]
}

/// The rate-control arguments of a configuration.
pub open spec fn rate_args(c: EncoderConfig) -> Seq<Seq<char>> {
    match c.rate_control {
        RateControl::CBR => cbr_args(c.bitrate_kbps as nat),
        RateControl::VBR => seq![
            "-b:v"@, kbps_text(c.bitrate_kbps as nat), "-maxrate"@,
            kbps_text(c.max_bitrate_kbps as nat), "-bufsize"@, kbps_text((2 * c.max_bitrate_kbps) as nat),
        ],
        RateControl::CQP => match c.encoder {
            HardwareEncoder::Nvenc => seq!["-rc"@, "constqp"@, "-qp"@, decimal(c.quality as nat)],
            HardwareEncoder::Software => seq!["-crf"@, decimal(c.quality as nat)],
            _ => seq!["-q:v"@, decimal(c.quality as nat)],
        },
    }
}

/// The preset arguments: every encoder but AMF takes one.
pub open spec fn preset_args(c: EncoderConfig) -> Seq<Seq<char>> {
    if c.encoder == HardwareEncoder::Amf {
        Seq::empty()
    } else {
        seq!["-preset"@, preset_text(c.preset, c.encoder)]
    }
}

/// The name of an H.264 profile.
pub open spec fn profile_text(p: H264Profile) -> Seq<char> {
    match p {
        H264Profile::Baseline => "baseline"@,
        H264Profile::Main => "main"@,
        H264Profile::High => "high"@,
    }
}

/// The profile arguments: H.264 only.
pub open spec fn profile_args(c: EncoderConfig) -> Seq<Seq<char>> {
    if c.codec == Codec::H264 {
        seq!["-profile:v"@, profile_text(c.profile)]
    } else {
        Seq::empty()
    }
}

/// Keyframe spacing arguments for a group of `frames` frames.
pub open spec fn keyframe_args(frames: nat) -> Seq<Seq<char>> {
    seq!["-g"@, decimal(frames), "-keyint_min"@, decimal(frames)]
}

/// The B-frame arguments: H.264 with at least one B-frame only.
pub open spec fn bframe_args(c: EncoderConfig) -> Seq<Seq<char>> {
    if c.b_frames > 0 && c.codec == Codec::H264 {
        seq!["-bf"@, decimal(c.b_frames as nat)]
    } else {
        Seq::empty()
    }
}

/// The full argument list for encoding to the file `output`.
pub open spec fn file_encode_args(c: EncoderConfig, output: Seq<char>) -> Seq<Seq<char>> {
    input_args(c) + seq!["-c:v"@, encoder_name_text(c.encoder, c.codec)] + rate_args(c)
        + preset_args(c) + profile_args(c) + keyframe_args((c.fps * c.keyframe_interval) as nat)
        + bframe_args(c) + seq!["-pix_fmt"@, "yuv420p"@, output]
}

/// The B-frame arguments of a stream: AMF streams without B-frames.
pub open spec fn stream_bframe_args(c: EncoderConfig) -> Seq<Seq<char>> {
    if c.encoder == HardwareEncoder::Amf {
        seq!["-bf"@, "0"@]
    } else {
        Seq::empty()
    }
}

/// The full argument list for streaming to the ingest URL `url`: always
/// constant bitrate, always a preset, the high profile for H.264, no
/// B-frames on AMF, two-second keyframes, and FLV output.
pub open spec fn stream_encode_args(c: EncoderConfig, url: Seq<char>) -> Seq<Seq<char>> {
    input_args(c) + seq!["-c:v"@, encoder_name_text(c.encoder, c.codec)]
        + cbr_args(c.bitrate_kbps as nat) + seq!["-preset"@, preset_text(c.preset, c.encoder)]
        + (if c.codec == Codec::H264 { seq!["-profile:v"@, "high"@] } else { Seq::empty() })
        + stream_bframe_args(c) + keyframe_args((c.fps * 2) as nat) + seq!["-pix_fmt"@, "yuv420p"@, "-f"@, "flv"@, url]
}

impl EncoderConfig {
    /// The encoder's name for this encoder and codec.
    pub fn ffmpeg_encoder_name(&self) -> (r: &str)
        ensures
            r@ == encoder_name_text(self.encoder, self.codec),
    {
        match (&self.encoder, &self.codec) {
            (HardwareEncoder::Nvenc, Codec::H264) => "h264_nvenc",
            (HardwareEncoder::Nvenc, Codec::H265) => "hevc_nvenc",
            (HardwareEncoder::Nvenc, Codec::Av1) => "av1_nvenc",
            (HardwareEncoder::Amf, Codec::H264) => "h264_amf",
            (HardwareEncoder::Amf, Codec::H265) => "hevc_amf",
            (HardwareEncoder::Amf, Codec::Av1) => "av1_amf",
            (HardwareEncoder::Qsv, Codec::H264) => "h264_qsv",
            (HardwareEncoder::Qsv, Codec::H265) => "hevc_qsv",
            (HardwareEncoder::Qsv, Codec::Av1) => "av1_qsv",
            (HardwareEncoder::Software, Codec::H264) => "libx264",
            (HardwareEncoder::Software, Codec::H265) => "libx265",
            (HardwareEncoder::Software, Codec::Av1) => "libaom-av1",
        }
    }

    /// The encoder and codec as the user sees them, such as `NVIDIA NVENC H.264`.
    pub fn display_name(&self) -> (r: String)
        ensures
            r@ == encoder_label(self.encoder) + seq![' '] + codec_label(self.codec),
    {
        let encoder_name = match self.encoder {
            HardwareEncoder::Nvenc => "NVIDIA NVENC",
            HardwareEncoder::Amf => "AMD AMF",
            HardwareEncoder::Qsv => "Intel QSV",
            HardwareEncoder::Software => "Software (CPU)",
        };
        let codec_name = match self.codec {
            Codec::H264 => "H.264",
            Codec::H265 => "H.265/HEVC",
            Codec::Av1 => "AV1",
        };
        let mut r = String::from_str(encoder_name);
        push_char(&mut r, ' ');
        r.append(codec_name);
        r
    }

    fn push_input_args(&self, args: &mut Vec<String>)
        ensures
            texts(final(args)@) == texts(old(args)@) + input_args(*self),
    {
        push_str(args, "-y");
        push_str(args, "-f");
        push_str(args, "rawvideo");
        push_str(args, "-pix_fmt");
        push_text(args, self.pixel_format.clone());
        push_str(args, "-s");
        push_text(args, resolution_string(self.width, self.height));
        push_str(args, "-r");
        push_text(args, decimal_string(self.fps as u64));
        push_str(args, "-i");
        push_str(args, "pipe:0");
        assert(texts(args@) =~= texts(old(args)@) + input_args(*self));
    }

    fn push_cbr_args(args: &mut Vec<String>, kbps: u32)
        requires
            2 * kbps <= u32::MAX,
        ensures
            texts(final(args)@) == texts(old(args)@) + cbr_args(kbps as nat),
    {
        push_str(args, "-b:v");
        push_text(args, kbps_string(kbps));
        push_str(args, "-maxrate");
        push_text(args, kbps_string(kbps));
        push_str(args, "-bufsize");
        push_text(args, kbps_string(kbps * 2));
        assert(texts(args@) =~= texts(old(args)@) + cbr_args(kbps as nat));
    }

    fn push_keyframe_args(args: &mut Vec<String>, frames: u32)
        ensures
            texts(final(args)@) == texts(old(args)@) + keyframe_args(frames as nat),
    {
        push_str(args, "-g");
        push_text(args, decimal_string(frames as u64));
        push_str(args, "-keyint_min");
        push_text(args, decimal_string(frames as u64));
        assert(texts(args@) =~= texts(old(args)@) + keyframe_args(frames as nat));
    }

    fn push_rate_args(&self, args: &mut Vec<String>)
        requires
            self.rate_control == RateControl::CBR ==> 2 * self.bitrate_kbps <= u32::MAX,
            self.rate_control == RateControl::VBR ==> 2 * self.max_bitrate_kbps <= u32::MAX,
        ensures
            texts(final(args)@) == texts(old(args)@) + rate_args(*self),
    {
        match self.rate_control {
            RateControl::CBR => {
                Self::push_cbr_args(args, self.bitrate_kbps);
            },
            RateControl::VBR => {
                push_str(args, "-b:v");
                push_text(args, kbps_string(self.bitrate_kbps));
                push_str(args, "-maxrate");
                push_text(args, kbps_string(self.max_bitrate_kbps));
                push_str(args, "-bufsize");
                push_text(args, kbps_string(self.max_bitrate_kbps * 2));
            },
            RateControl::CQP => {
                match self.encoder {
                    HardwareEncoder::Nvenc => {
                        push_str(args, "-rc");
                        push_str(args, "constqp");
                        push_str(args, "-qp");
                        push_text(args, decimal_string(self.quality as u64));
                    },
                    HardwareEncoder::Software => {
                        push_str(args, "-crf");
                        push_text(args, decimal_string(self.quality as u64));
                    },
                    _ => {
                        push_str(args, "-q:v");
                        push_text(args, decimal_string(self.quality as u64));
                    },
                }
            },
        }
        assert(texts(args@) =~= texts(old(args)@) + rate_args(*self));
    }

    fn push_preset_args(&self, args: &mut Vec<String>)
        ensures
            texts(final(args)@) == texts(old(args)@) + preset_args(*self),
    {
        let preset = self.preset.to_ffmpeg_preset(&self.encoder);
        match self.encoder {
            HardwareEncoder::Amf => {},
            _ => {
                push_str(args, "-preset");
                push_str(args, preset);
            },
        }
        assert(texts(args@) =~= texts(old(args)@) + preset_args(*self));
    }

    fn push_profile_args(&self, args: &mut Vec<String>)
        ensures
            texts(final(args)@) == texts(old(args)@) + profile_args(*self),
    {
        match self.codec {
            Codec::H264 => {
                push_str(args, "-profile:v");
                let profile = match self.profile {
                    H264Profile::Baseline => "baseline",
                    H264Profile::Main => "main",
                    H264Profile::High => "high",
                };
                push_str(args, profile);
            },
            _ => {},
        }
        assert(texts(args@) =~= texts(old(args)@) + profile_args(*self));
    }

    fn push_bframe_args(&self, args: &mut Vec<String>)
        ensures
            texts(final(args)@) == texts(old(args)@) + bframe_args(*self),
    {
        let is_h264 = match self.codec {
            Codec::H264 => true,
            _ => false,
        };
        if self.b_frames > 0 && is_h264 {
            push_str(args, "-bf");
            push_text(args, decimal_string(self.b_frames as u64));
        }
        assert(texts(args@) =~= texts(old(args)@) + bframe_args(*self));
    }

    /// The argument list for encoding raw frames from standard input into
    /// the file `output`.
    pub fn build_ffmpeg_args(&self, output: &str) -> (args: Vec<String>)
        requires
            self.rate_control == RateControl::CBR ==> 2 * self.bitrate_kbps <= u32::MAX,
            self.rate_control == RateControl::VBR ==> 2 * self.max_bitrate_kbps <= u32::MAX,
            self.fps * self.keyframe_interval <= u32::MAX,
        ensures
            texts(args@) == file_encode_args(*self, output@),
    {
        let mut args: Vec<String> = Vec::new();
        assert(texts(args@) =~= Seq::<Seq<char>>::empty());
        self.push_input_args(&mut args);
        push_str(&mut args, "-c:v");
        push_str(&mut args, self.ffmpeg_encoder_name());
        self.push_rate_args(&mut args);
        self.push_preset_args(&mut args);
        self.push_profile_args(&mut args);
        Self::push_keyframe_args(&mut args, self.fps * self.keyframe_interval);
        self.push_bframe_args(&mut args);
        push_str(&mut args, "-pix_fmt");
        push_str(&mut args, "yuv420p");
        push_str(&mut args, output);
        assert(texts(args@) =~= file_encode_args(*self, output@));
        args
    }

    /// The argument list for encoding raw frames from standard input into
    /// an FLV stream sent to `rtmp_url`.
    pub fn build_stream_args(&self, rtmp_url: &str) -> (args: Vec<String>)
        requires
            2 * self.bitrate_kbps <= u32::MAX,
            2 * self.fps <= u32::MAX,
        ensures
            texts(args@) == stream_encode_args(*self, rtmp_url@),
    {
        let mut args: Vec<String> = Vec::new();
        assert(texts(args@) =~= Seq::<Seq<char>>::empty());
        self.push_input_args(&mut args);
        push_str(&mut args, "-c:v");
        push_str(&mut args, self.ffmpeg_encoder_name());
        Self::push_cbr_args(&mut args, self.bitrate_kbps);
        push_str(&mut args, "-preset");
        push_str(&mut args, self.preset.to_ffmpeg_preset(&self.encoder));
        let ghost after_preset = texts(args@);
        match self.codec {
            Codec::H264 => {
                push_str(&mut args, "-profile:v");
                push_str(&mut args, "high");
            },
            _ => {},
        }
        let ghost profile_part: Seq<Seq<char>> = if self.codec == Codec::H264 {
            seq!["-profile:v"@, "high"@]
        } else {
            Seq::empty()
        };
        assert(texts(args@) =~= after_preset + profile_part);
        let ghost after_profile = texts(args@);
        match self.encoder {
            HardwareEncoder::Amf => {
                push_str(&mut args, "-bf");
                push_str(&mut args, "0");
            },
            _ => {},
        }
        assert(texts(args@) =~= after_profile + stream_bframe_args(*self));
        Self::push_keyframe_args(&mut args, self.fps * 2);
        push_str(&mut args, "-pix_fmt");
        push_str(&mut args, "yuv420p");
        push_str(&mut args, "-f");
        push_str(&mut args, "flv");
        push_str(&mut args, rtmp_url);
        assert(texts(args@) =~= stream_encode_args(*self, rtmp_url@));
        args
    }
}


/// The encoders whose presence an encoder listing is searched for, in order.
pub open spec fn probed_encoders() -> Seq<Seq<char>> {
    seq![
        "h264_nvenc"@, "hevc_nvenc"@, "av1_nvenc"@, "h264_amf"@, "hevc_amf"@, "av1_amf"@,
        "h264_qsv"@, "hevc_qsv"@, "av1_qsv"@, "libx264"@, "libx265"@,
    ]
}

/// The names among `names` that occur in `listing`, in their order.
pub open spec fn named_in(names: Seq<Seq<char>>, listing: Seq<char>) -> Seq<Seq<char>>
    decreases names.len(),
{
    if names.len() == 0 {
        Seq::empty()
    } else {
        let rest = named_in(names.drop_last(), listing);
        if contains(listing, names.last()) {
            rest.push(names.last())
        } else {
            rest
        }
    }
}

/// The probed encoders that an encoder listing mentions, in probing order.
pub fn encoders_in_listing(listing: &str) -> (found: Vec<String>)
    ensures
        texts(found@) == named_in(probed_encoders(), listing@),
{
    let names: Vec<&str> = vec![
        "h264_nvenc", "hevc_nvenc", "av1_nvenc", "h264_amf", "hevc_amf", "av1_amf",
        "h264_qsv", "hevc_qsv", "av1_qsv", "libx264", "libx265",
    ];
    let ghost name_texts = names@.map_values(|n: &str| n@);
    assert(name_texts =~= probed_encoders());
    let mut found: Vec<String> = Vec::new();
    let mut i: usize = 0;
    assert(texts(found@) =~= named_in(name_texts.take(0), listing@));
    while i < names.len()
        invariant
            i <= names.len(),
            name_texts == names@.map_values(|n: &str| n@),
            texts(found@) == named_in(name_texts.take(i as int), listing@),
        decreases names.len() - i,
    {
        let name = names[i];
        assert(name_texts.take(i + 1).drop_last() =~= name_texts.take(i as int));
        assert(name_texts.take(i + 1).last() == name@);
        if contains_str(listing, name) {
            push_str(&mut found, name);
        }
        i = i + 1;
    }
    assert(name_texts.take(names.len() as int) =~= name_texts);
    found
}

/// The first line of a program's output, as `str::lines().next()` gives it:
/// nothing for empty output, otherwise the text before the first line feed
/// without a carriage return that ends it.
pub open spec fn first_line_of(s: Seq<char>) -> Option<Seq<char>> {
    if s.len() == 0 {
        None
    } else if contains(s, seq!['\n']) {
        let line = before_char(s, '\n');
        Some(if has_suffix(line, seq!['\r']) { line.drop_last() } else { line })
    } else {
        Some(s)
    }
}

/// The first line of `output`, such as the version line of `-version`.
pub fn first_line(output: &str) -> (r: Option<String>)
    ensures
        match r {
            Some(l) => first_line_of(output@) == Some(l@),
            None => first_line_of(output@) is None,
        },
{
    let v = chars_of(output);
    if v.len() == 0 {
        return None;
    }
    let (line, _, has_newline) = split_at_char(&v, '\n');
    if !has_newline {
        return Some(string_from_chars(&v));
    }
    if line.len() > 0 && line[line.len() - 1] == '\r' {
        assert(line@.subrange(line.len() - 1, line.len() as int) =~= seq!['\r']);
        let mut trimmed: Vec<char> = Vec::new();
        let mut i: usize = 0;
        while i + 1 < line.len()
            invariant
                i < line.len(),
                trimmed@ == line@.take(i as int),
            decreases line.len() - i,
        {
            trimmed.push(line[i]);
            i = i + 1;
            assert(trimmed@ =~= line@.take(i as int));
        }
        assert(trimmed@ =~= line@.drop_last());
        Some(string_from_chars(&trimmed))
    } else {
        assert(!has_suffix(line@, seq!['\r'])) by {
            if line@.len() > 0 {
                assert(line@.subrange(line.len() - 1, line.len() as int)[0] == line@[line.len() - 1]);
            }
        }
        Some(string_from_chars(&line))
    }
}


/// Law of the file arguments: every H.264 configuration with B-frames, for
/// any encoder, asks for them with `-bf` followed by their number.
pub proof fn law_file_args_keep_bframes(c: EncoderConfig, output: Seq<char>)
    requires
        c.codec == Codec::H264,
        c.b_frames > 0,
    ensures
        exists|i: int| 0 <= i && i + 1 < file_encode_args(c, output).len()
            && #[trigger] file_encode_args(c, output)[i] == "-bf"@
            && file_encode_args(c, output)[i + 1] == decimal(c.b_frames as nat),
{
    let pre = input_args(c) + seq!["-c:v"@, encoder_name_text(c.encoder, c.codec)] + rate_args(c)
        + preset_args(c) + profile_args(c) + keyframe_args((c.fps * c.keyframe_interval) as nat);
    let tail = seq!["-pix_fmt"@, "yuv420p"@, output];
    let args = file_encode_args(c, output);
    assert(args == pre + bframe_args(c) + tail);
    assert(bframe_args(c) == seq!["-bf"@, decimal(c.b_frames as nat)]);
    assert(args[pre.len() as int] == "-bf"@);
    assert(args[pre.len() as int + 1] == decimal(c.b_frames as nat));
}

/// Law of the B-frame arguments: they depend on the number of B-frames and
/// the codec only, never on which encoder is used.
pub proof fn law_bframes_ignore_encoder(c: EncoderConfig, e: HardwareEncoder)
    ensures
        bframe_args(c) == bframe_args(EncoderConfig { encoder: e, ..c }),
{
}

} // verus!
