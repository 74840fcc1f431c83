//! Hardware description: GPU vendors, hardware encoders and codecs, the
//! devices found on the machine, and the rules that derive encoder
//! capabilities and recommendations from them.

use vstd::prelude::*;
use crate::text::{contains, contains_str, decimal, digit_char, push_char, push_decimal, trim_str, trimmed};

verus! {

/// The maker of a GPU.
#[derive(Debug, Clone, PartialEq, Eq)]
pub enum GpuVendor {
    Nvidia,
    Amd,
    Intel,
    Unknown(String),
}

/// A hardware video encoder, or `Software` for encoding on the CPU.
#[derive(Debug, Clone, Copy, PartialEq, Eq, Structural)]
pub enum HardwareEncoder {
    Nvenc,
    Amf,
    Qsv,
    Software,
}

/// A video codec.
#[derive(Debug, Clone, Copy, PartialEq, Eq, Structural)]
pub enum Codec {
    H264,
    H265,
    Av1,
}


/// The text of a hexadecimal digit, in upper case.
pub open spec fn hex_digit(d: nat) -> char {
    if d < 10 {
        digit_char(d)
    } else if d == 10 {
        'A'
    } else if d == 11 {
        'B'
    } else if d == 12 {
        'C'
    } else if d == 13 {
        'D'
    } else if d == 14 {
        'E'
    } else {
        'F'
    }
}

/// The upper-case hexadecimal rendering of `n`.
pub open spec fn hex(n: nat) -> Seq<char>
    decreases n,
{
    if n < 16 {
        seq![hex_digit(n)]
    } else {
        hex(n / 16).push(hex_digit(n % 16))
    }
}

/// `s` with zeros in front up to `width` characters.
pub open spec fn zero_padded(s: Seq<char>, width: nat) -> Seq<char> {
    if s.len() >= width {
        s
    } else {
        Seq::new((width - s.len()) as nat, |i: int| '0') + s
    }
}

/// The name given to a vendor that is not recognised: its PCI id as
/// `0x` and at least four upper-case hexadecimal digits.
pub open spec fn unknown_vendor_text(id: u32) -> Seq<char> {
    "0x"@ + zero_padded(hex(id as nat), 4)
}

fn hex_digit_exec(d: u32) -> (c: char)
    requires
        d < 16,
    ensures
        c == hex_digit(d as nat),
{
    match d {
        0 => '0',
        1 => '1',
        2 => '2',
        3 => '3',
        4 => '4',
        5 => '5',
        6 => '6',
        7 => '7',
        8 => '8',
        9 => '9',
        10 => 'A',
        11 => 'B',
        12 => 'C',
        13 => 'D',
        14 => 'E',
        _ => 'F',
    }
}

fn push_hex(s: &mut String, n: u32)
    ensures
        final(s)@ == old(s)@ + hex(n as nat),
    decreases n,
{
    if n >= 16 {
        push_hex(s, n / 16);
    }
    push_char(s, hex_digit_exec(n % 16));
    assert(s@ =~= old(s)@ + hex(n as nat));
}

/// The vendor with the given PCI vendor id.
pub open spec fn vendor_of_id(id: u32, v: GpuVendor) -> bool {
    if id == 0x10DE {
        v == GpuVendor::Nvidia
    } else if id == 0x1002 {
        v == GpuVendor::Amd
    } else if id == 0x8086 {
        v == GpuVendor::Intel
    } else {
        v matches GpuVendor::Unknown(t) && t@ == unknown_vendor_text(id)
    }
}

impl GpuVendor {
    /// The vendor that a PCI vendor id stands for: NVIDIA, AMD, Intel, or
    /// an unknown vendor named by its id.
    pub fn from_vendor_id(id: u32) -> (v: GpuVendor)
        ensures
            vendor_of_id(id, v),
    {
        if id == 0x10DE {
            GpuVendor::Nvidia
        } else if id == 0x1002 {
            GpuVendor::Amd
        } else if id == 0x8086 {
            GpuVendor::Intel
        } else {
            let mut digits = String::new();
            push_hex(&mut digits, id);
            let mut t = String::from_str("0x");
            let mut k: usize = digits.as_str().unicode_len();
            assert(digits@ == hex(id as nat));
            let ghost pad_len: int = if k < 4 { 4 - k } else { 0 };
            let ghost t0 = t@;
            while k < 4
                invariant
                    digits@.len() <= k <= 4 || (k == digits@.len() && k >= 4),
                    t@ == t0 + Seq::new((k - digits@.len()) as nat, |i: int| '0'),
                decreases 4 - k,
            {
                push_char(&mut t, '0');
                k = k + 1;
                assert(t@ =~= t0 + Seq::new((k - digits@.len()) as nat, |i: int| '0'));
            }
            t.append(digits.as_str());
            proof {
                reveal_strlit("0x");
                if digits@.len() >= 4 {
                    assert(Seq::new(0nat, |i: int| '0') =~= Seq::<char>::empty());
                }
                assert(t@ =~= unknown_vendor_text(id));
            }
            GpuVendor::Unknown(t)
        }
    }
}


/// What `str::to_uppercase` makes of a text.
pub uninterp spec fn uppercase_of(s: Seq<char>) -> Seq<char>;

/// Calls `str::to_uppercase`; its result is named `uppercase_of` of the
/// text, a function of the text alone (Unicode case mapping).
#[verifier::external_body]
fn to_upper_case(s: &str) -> (r: String)
    ensures
        r@ == uppercase_of(s@),
{
    s.to_uppercase()
}

/// The hardware encoders of a GPU from this vendor.
pub open spec fn vendor_encoders(v: GpuVendor) -> Seq<HardwareEncoder> {
    match v {
        GpuVendor::Nvidia => seq![HardwareEncoder::Nvenc],
        GpuVendor::Amd => seq![HardwareEncoder::Amf],
        GpuVendor::Intel => seq![HardwareEncoder::Qsv],
        GpuVendor::Unknown(_) => Seq::empty(),
    }
}

/// A GPU of this vendor whose upper-case name is `upper` encodes AV1:
/// NVIDIA RTX 40, 50 and 60 series, AMD RX 7000, 8000 and 9000 series, and
/// Intel Arc (names with `ARC`, `A7` or `A5`).
pub open spec fn encodes_av1(v: GpuVendor, upper: Seq<char>) -> bool {
    match v {
        GpuVendor::Nvidia => contains(upper, "RTX 40"@) || contains(upper, "RTX 50"@) || contains(upper, "RTX 60"@),
        GpuVendor::Amd => contains(upper, "RX 7"@) || contains(upper, "RX 8"@) || contains(upper, "RX 9"@),
        GpuVendor::Intel => contains(upper, "ARC"@) || contains(upper, "A7"@) || contains(upper, "A5"@),
        GpuVendor::Unknown(_) => false,
    }
}

/// The codecs a GPU of this vendor with upper-case name `upper` encodes:
/// H.264 always, H.265 on the three known vendors, and AV1 on the series
/// that have it.
pub open spec fn vendor_codecs(v: GpuVendor, upper: Seq<char>) -> Seq<Codec> {
    let base = if v is Unknown { seq![Codec::H264] } else { seq![Codec::H264, Codec::H265] };
    if encodes_av1(v, upper) {
        base.push(Codec::Av1)
    } else {
        base
    }
}

/// The encoders and codecs of a GPU from its vendor and its name in upper case.
pub fn capabilities_for(vendor: &GpuVendor, upper_name: &str) -> (r: (Vec<HardwareEncoder>, Vec<Codec>))
    ensures
        r.0@ == vendor_encoders(*vendor),
        r.1@ == vendor_codecs(*vendor, upper_name@),
{
    let mut encoders: Vec<HardwareEncoder> = Vec::new();
    let mut codecs: Vec<Codec> = Vec::new();
    codecs.push(Codec::H264);
    match vendor {
        GpuVendor::Nvidia => {
            encoders.push(HardwareEncoder::Nvenc);
            codecs.push(Codec::H265);
            if contains_str(upper_name, "RTX 40") || contains_str(upper_name, "RTX 50")
                || contains_str(upper_name, "RTX 60") {
                codecs.push(Codec::Av1);
            }
        },
        GpuVendor::Amd => {
            encoders.push(HardwareEncoder::Amf);
            codecs.push(Codec::H265);
            if contains_str(upper_name, "RX 7") || contains_str(upper_name, "RX 8")
                || contains_str(upper_name, "RX 9") {
                codecs.push(Codec::Av1);
            }
        },
        GpuVendor::Intel => {
            encoders.push(HardwareEncoder::Qsv);
            codecs.push(Codec::H265);
            if contains_str(upper_name, "ARC") || contains_str(upper_name, "A7")
                || contains_str(upper_name, "A5") {
                codecs.push(Codec::Av1);
            }
        },
        GpuVendor::Unknown(_) => {},
    }
    assert(encoders@ =~= vendor_encoders(*vendor));
    assert(codecs@ =~= vendor_codecs(*vendor, upper_name@));
    (encoders, codecs)
}

/// The encoders and codecs of a GPU from its vendor, name and memory.
pub fn detect_encoder_capabilities(vendor: &GpuVendor, name: &str, vram_mb: u64) -> (r: (
    Vec<HardwareEncoder>,
    Vec<Codec>,
))
    ensures
        r.0@ == vendor_encoders(*vendor),
        r.1@ == vendor_codecs(*vendor, uppercase_of(name@)),
{
    let upper = to_upper_case(name);
    capabilities_for(vendor, upper.as_str())
}


/// `a` and `b` describe the same GPU in every field.
pub open spec fn same_gpu(a: GpuInfo, b: GpuInfo) -> bool {
    &&& a.name == b.name
    &&& a.vendor == b.vendor
    &&& a.vram_mb == b.vram_mb
    &&& a.driver_version == b.driver_version
    &&& a.encoders@ == b.encoders@
    &&& a.supported_codecs@ == b.supported_codecs@
}

/// A GPU and what it can encode.
#[derive(Debug, Clone)]
pub struct GpuInfo {
    pub name: String,
    pub vendor: GpuVendor,
    pub vram_mb: u64,
    pub driver_version: String,
    pub encoders: Vec<HardwareEncoder>,
    pub supported_codecs: Vec<Codec>,
}

fn copy_vendor(v: &GpuVendor) -> (r: GpuVendor)
    ensures
        r == *v,
{
    match v {
        GpuVendor::Nvidia => GpuVendor::Nvidia,
        GpuVendor::Amd => GpuVendor::Amd,
        GpuVendor::Intel => GpuVendor::Intel,
        GpuVendor::Unknown(t) => GpuVendor::Unknown(t.clone()),
    }
}

fn copy_vec<T: Copy>(v: &Vec<T>) -> (r: Vec<T>)
    ensures
        r@ == v@,
{
    let mut r: Vec<T> = Vec::new();
    let mut i: usize = 0;
    while i < v.len()
        invariant
            i <= v.len(),
            r@ == v@.take(i as int),
        decreases v.len() - i,
    {
        r.push(v[i]);
        i = i + 1;
        assert(r@ =~= v@.take(i as int));
    }
    assert(v@.take(v.len() as int) =~= v@);
    r
}

impl GpuInfo {
    /// A GPU as an adapter describes it: its description, PCI vendor id and
    /// dedicated video memory in bytes. The name is the trimmed description;
    /// the encoders and codecs follow from the vendor and the description.
    pub fn from_adapter(description: &str, vendor_id: u32, dedicated_video_memory: u64) -> (g: GpuInfo)
        ensures
            g.name@ == trimmed(description@),
            vendor_of_id(vendor_id, g.vendor),
            g.vram_mb == dedicated_video_memory / 1048576u64,
            g.driver_version@ == Seq::<char>::empty(),
            g.encoders@ == vendor_encoders(g.vendor),
            g.supported_codecs@ == vendor_codecs(g.vendor, uppercase_of(description@)),
    {
        let vendor = GpuVendor::from_vendor_id(vendor_id);
        let vram_mb = dedicated_video_memory / (1024 * 1024);
        let (encoders, codecs) = detect_encoder_capabilities(&vendor, description, vram_mb);
        GpuInfo {
            name: trim_str(description),
            vendor,
            vram_mb,
            driver_version: String::new(),
            encoders,
            supported_codecs: codecs,
        }
    }

    /// A field-by-field copy.
    pub fn duplicate(&self) -> (r: GpuInfo)
        ensures
            same_gpu(r, *self),
    {
        GpuInfo {
            name: self.name.clone(),
            vendor: copy_vendor(&self.vendor),
            vram_mb: self.vram_mb,
            driver_version: self.driver_version.clone(),
            encoders: copy_vec(&self.encoders),
            supported_codecs: copy_vec(&self.supported_codecs),
        }
    }

    /// Whether the GPU has the hardware encoder `e`.
    pub fn has_encoder(&self, e: HardwareEncoder) -> (b: bool)
        ensures
            b == self.encoders@.contains(e),
    {
        let mut i: usize = 0;
        while i < self.encoders.len()
            invariant
                i <= self.encoders.len(),
                forall|k: int| 0 <= k < i ==> self.encoders@[k] != e,
            decreases self.encoders.len() - i,
        {
            if self.encoders[i] == e {
                return true;
            }
            i = i + 1;
        }
        false
    }

    /// Whether the GPU encodes the codec `c`.
    pub fn has_codec(&self, c: Codec) -> (b: bool)
        ensures
            b == self.supported_codecs@.contains(c),
    {
        let mut i: usize = 0;
        while i < self.supported_codecs.len()
            invariant
                i <= self.supported_codecs.len(),
                forall|k: int| 0 <= k < i ==> self.supported_codecs@[k] != c,
            decreases self.supported_codecs.len() - i,
        {
            if self.supported_codecs[i] == c {
                return true;
            }
            i = i + 1;
        }
        false
    }
}

/// Some GPU in `gpus` has the hardware encoder `e`.
pub open spec fn any_gpu_has(gpus: Seq<GpuInfo>, e: HardwareEncoder) -> bool {
    exists|i: int| 0 <= i < gpus.len() && #[trigger] gpus[i].encoders@.contains(e)
}

/// The preferred encoder among those the GPUs have: NVENC, then AMF, then
/// Quick Sync, then the CPU.
pub open spec fn best_encoder_of(gpus: Seq<GpuInfo>) -> HardwareEncoder {
    if any_gpu_has(gpus, HardwareEncoder::Nvenc) {
        HardwareEncoder::Nvenc
    } else if any_gpu_has(gpus, HardwareEncoder::Amf) {
        HardwareEncoder::Amf
    } else if any_gpu_has(gpus, HardwareEncoder::Qsv) {
        HardwareEncoder::Qsv
    } else {
        HardwareEncoder::Software
    }
}

fn any_has(gpus: &[GpuInfo], e: HardwareEncoder) -> (b: bool)
    ensures
        b == any_gpu_has(gpus@, e),
{
    let mut i: usize = 0;
    while i < gpus.len()
        invariant
            i <= gpus.len(),
            forall|k: int| 0 <= k < i ==> !(#[trigger] gpus@[k].encoders@.contains(e)),
        decreases gpus.len() - i,
    {
        if gpus[i].has_encoder(e) {
            return true;
        }
        i = i + 1;
    }
    false
}

/// The best encoder that the GPUs offer, in the order NVENC, AMF, Quick Sync, CPU.
pub fn determine_best_encoder(gpus: &[GpuInfo]) -> (e: HardwareEncoder)
    ensures
        e == best_encoder_of(gpus@),
{
    if any_has(gpus, HardwareEncoder::Nvenc) {
        HardwareEncoder::Nvenc
    } else if any_has(gpus, HardwareEncoder::Amf) {
        HardwareEncoder::Amf
    } else if any_has(gpus, HardwareEncoder::Qsv) {
        HardwareEncoder::Qsv
    } else {
        HardwareEncoder::Software
    }
}

/// The largest video memory among the GPUs, zero when there are none.
pub open spec fn max_vram(gpus: Seq<GpuInfo>) -> u64
    decreases gpus.len(),
{
    if gpus.len() == 0 {
        0
    } else {
        let rest = max_vram(gpus.drop_last());
        if gpus.last().vram_mb > rest { gpus.last().vram_mb } else { rest }
    }
}

/// Some GPU has a hardware encoder.
pub open spec fn any_hardware_encoder(gpus: Seq<GpuInfo>) -> bool {
    exists|i: int| 0 <= i < gpus.len() && #[trigger] gpus[i].encoders@.len() > 0
}

/// The recording resolution recommended for these GPUs and this much memory.
pub open spec fn recommended_resolution_of(gpus: Seq<GpuInfo>, total_ram_mb: u64) -> Seq<char> {
    let hw = any_hardware_encoder(gpus);
    let vram = max_vram(gpus);
    if vram >= 8192 && total_ram_mb >= 16384 && hw {
        "1440p60"@
    } else if vram >= 4096 && total_ram_mb >= 8192 && hw {
        "1080p60"@
    } else if hw {
        "720p60"@
    } else if total_ram_mb >= 8192 {
        "720p30"@
    } else {
        "480p30"@
    }
}

/// The recording resolution to recommend: 1440p60 with 8 GB of video
/// memory, 16 GB of memory and a hardware encoder; 1080p60 with 4 GB and
/// 8 GB; 720p60 with any hardware encoder; else 720p30 with 8 GB of memory,
/// else 480p30.
pub fn recommend_resolution(gpus: &[GpuInfo], total_ram_mb: u64) -> (r: String)
    ensures
        r@ == recommended_resolution_of(gpus@, total_ram_mb),
{
    let mut has_hw = false;
    let mut best: u64 = 0;
    let mut i: usize = 0;
    assert(gpus@.take(0) =~= Seq::<GpuInfo>::empty());
    while i < gpus.len()
        invariant
            i <= gpus.len(),
            best == max_vram(gpus@.take(i as int)),
            has_hw == exists|k: int| 0 <= k < i && #[trigger] gpus@[k].encoders@.len() > 0,
        decreases gpus.len() - i,
    {
        assert(gpus@.take(i + 1).drop_last() =~= gpus@.take(i as int));
        if gpus[i].encoders.len() > 0 {
            has_hw = true;
        }
        if gpus[i].vram_mb > best {
            best = gpus[i].vram_mb;
        }
        i = i + 1;
    }
    assert(gpus@.take(gpus.len() as int) =~= gpus@);
    if best >= 8192 && total_ram_mb >= 16384 && has_hw {
        String::from_str("1440p60")
    } else if best >= 4096 && total_ram_mb >= 8192 && has_hw {
        String::from_str("1080p60")
    } else if has_hw {
        String::from_str("720p60")
    } else if total_ram_mb >= 8192 {
        String::from_str("720p30")
    } else {
        String::from_str("480p30")
    }
}

/// Some GPU encodes AV1.
pub open spec fn any_av1(gpus: Seq<GpuInfo>) -> bool {
    exists|i: int| 0 <= i < gpus.len() && #[trigger] gpus[i].supported_codecs@.contains(Codec::Av1)
}

/// Some GPU has 4 GB of video memory and a hardware encoder, enough for 4K at 60 fps.
pub open spec fn any_4k60(gpus: Seq<GpuInfo>) -> bool {
    exists|i: int|
        0 <= i < gpus.len() && #[trigger] gpus[i].vram_mb >= 4096 && (gpus[i].encoders@.contains(
            HardwareEncoder::Nvenc,
        ) || gpus[i].encoders@.contains(HardwareEncoder::Amf) || gpus[i].encoders@.contains(
            HardwareEncoder::Qsv,
        ))
}

fn any_gpu_av1(gpus: &[GpuInfo]) -> (b: bool)
    ensures
        b == any_av1(gpus@),
{
    let mut i: usize = 0;
    while i < gpus.len()
        invariant
            i <= gpus.len(),
            forall|k: int| 0 <= k < i ==> !(#[trigger] gpus@[k].supported_codecs@.contains(Codec::Av1)),
        decreases gpus.len() - i,
    {
        if gpus[i].has_codec(Codec::Av1) {
            return true;
        }
        i = i + 1;
    }
    false
}

fn any_gpu_4k60(gpus: &[GpuInfo]) -> (b: bool)
    ensures
        b == any_4k60(gpus@),
{
    let mut i: usize = 0;
    while i < gpus.len()
        invariant
            i <= gpus.len(),
            forall|k: int|
                0 <= k < i ==> !(#[trigger] gpus@[k].vram_mb >= 4096 && (gpus@[k].encoders@.contains(
                    HardwareEncoder::Nvenc,
                ) || gpus@[k].encoders@.contains(HardwareEncoder::Amf)
                    || gpus@[k].encoders@.contains(HardwareEncoder::Qsv))),
        decreases gpus.len() - i,
    {
        let g = &gpus[i];
        if g.vram_mb >= 4096 && (g.has_encoder(HardwareEncoder::Nvenc) || g.has_encoder(
            HardwareEncoder::Amf,
        ) || g.has_encoder(HardwareEncoder::Qsv)) {
            return true;
        }
        i = i + 1;
    }
    false
}


/// A connected monitor. Its DPI is the raw logical DPI; its scale factor
/// is that DPI over 96.
#[derive(Debug, Clone)]
pub struct MonitorInfo {
    pub name: String,
    pub id: String,
    pub width: u32,
    pub height: u32,
    pub refresh_rate: u32,
    pub primary: bool,
    pub dpi: i32,
    pub hmonitor: isize,
}

/// The flag that marks the primary monitor.
pub const MONITOR_PRIMARY_FLAG: u32 = 1;

impl MonitorInfo {
    /// The `index`-th monitor found, from its device name, its rectangle,
    /// its refresh rate when the display settings report one (60 Hz
    /// otherwise), its flags, logical DPI and handle.
    pub fn from_display(
        device_name: &str,
        index: u64,
        left: i32,
        top: i32,
        right: i32,
        bottom: i32,
        refresh_rate: Option<u32>,
        flags: u32,
        dpi: i32,
        hmonitor: isize,
    ) -> (m: MonitorInfo)
        requires
            i32::MIN <= right - left <= i32::MAX,
            i32::MIN <= bottom - top <= i32::MAX,
        ensures
            m.name@ == trimmed(device_name@),
            m.id@ == "monitor_"@ + decimal(index as nat),
            m.width == (right - left) as u32,
            m.height == (bottom - top) as u32,
            m.refresh_rate == match refresh_rate {
                Some(r) => r,
                None => 60,
            },
            m.primary == (flags & MONITOR_PRIMARY_FLAG != 0),
            m.dpi == dpi,
            m.hmonitor == hmonitor,
    {
        let mut id = String::from_str("monitor_");
        push_decimal(&mut id, index);
        MonitorInfo {
            name: trim_str(device_name),
            id,
            width: (right - left) as u32,
            height: (bottom - top) as u32,
            refresh_rate: match refresh_rate {
                Some(r) => r,
                None => 60,
            },
            primary: flags & MONITOR_PRIMARY_FLAG != 0,
            dpi,
            hmonitor,
        }
    }
}

/// An audio endpoint.
#[derive(Debug, Clone)]
pub struct AudioDeviceInfo {
    pub name: String,
    pub id: String,
    pub is_input: bool,
    pub is_default: bool,
}

/// A camera.
#[derive(Debug, Clone)]
pub struct CameraInfo {
    pub name: String,
    pub id: String,
}

/// The device lists before enumeration: the default system output and the
/// default microphone.
pub fn default_audio_devices() -> (r: (Vec<AudioDeviceInfo>, Vec<AudioDeviceInfo>))
    ensures
        r.0@.len() == 1,
        r.0@[0].name@ == "Default System Audio"@,
        r.0@[0].id@ == "default_output"@,
        !r.0@[0].is_input,
        r.0@[0].is_default,
        r.1@.len() == 1,
        r.1@[0].name@ == "Default Microphone"@,
        r.1@[0].id@ == "default_input"@,
        r.1@[0].is_input,
        r.1@[0].is_default,
{
    let mut outputs: Vec<AudioDeviceInfo> = Vec::new();
    let mut inputs: Vec<AudioDeviceInfo> = Vec::new();
    outputs.push(AudioDeviceInfo {
        name: String::from_str("Default System Audio"),
        id: String::from_str("default_output"),
        is_input: false,
        is_default: true,
    });
    inputs.push(AudioDeviceInfo {
        name: String::from_str("Default Microphone"),
        id: String::from_str("default_input"),
        is_input: true,
        is_default: true,
    });
    (outputs, inputs)
}

/// Some device in `list` has the name `name`.
pub open spec fn has_device_named(list: Seq<AudioDeviceInfo>, name: Seq<char>) -> bool {
    exists|i: int| 0 <= i < list.len() && #[trigger] list[i].name@ == name
}

/// The name of the `index`-th enumerated endpoint: its friendly name when
/// it has one, else `Output Device N` or `Input Device N`.
pub open spec fn endpoint_name(friendly: Option<Seq<char>>, is_input: bool, index: u32) -> Seq<char> {
    match friendly {
        Some(n) => n,
        None => (if is_input { "Input Device "@ } else { "Output Device "@ }) + decimal(index as nat),
    }
}

/// The id of the `index`-th enumerated endpoint: its device id when it
/// has one, else `output_N` or `input_N`.
pub open spec fn endpoint_id(device_id: Option<Seq<char>>, is_input: bool, index: u32) -> Seq<char> {
    match device_id {
        Some(n) => n,
        None => (if is_input { "input_"@ } else { "output_"@ }) + decimal(index as nat),
    }
}

/// The view of an optional string.
pub open spec fn opt_text(o: Option<String>) -> Option<Seq<char>> {
    match o {
        Some(s) => Some(s@),
        None => None,
    }
}

/// Adds the `index`-th enumerated endpoint to `list` unless a device with
/// the same name is already there; the first endpoint is the default one.
pub fn add_endpoint(
    list: &mut Vec<AudioDeviceInfo>,
    friendly_name: Option<String>,
    device_id: Option<String>,
    is_input: bool,
    index: u32,
)
    ensures
        has_device_named(old(list)@, endpoint_name(opt_text(friendly_name), is_input, index))
            ==> final(list)@ == old(list)@,
        !has_device_named(old(list)@, endpoint_name(opt_text(friendly_name), is_input, index))
            ==> {
            &&& final(list)@.len() == old(list)@.len() + 1
            &&& final(list)@.take(old(list)@.len() as int) == old(list)@
            &&& final(list)@.last().name@ == endpoint_name(opt_text(friendly_name), is_input, index)
            &&& final(list)@.last().id@ == endpoint_id(opt_text(device_id), is_input, index)
            &&& final(list)@.last().is_input == is_input
            &&& final(list)@.last().is_default == (index == 0)
        },
{
    let name = match friendly_name {
        Some(n) => n,
        None => {
            let mut n = if is_input { String::from_str("Input Device ") } else { String::from_str("Output Device ") };
            push_decimal(&mut n, index as u64);
            n
        },
    };
    let id = match device_id {
        Some(d) => d,
        None => {
            let mut d = if is_input { String::from_str("input_") } else { String::from_str("output_") };
            push_decimal(&mut d, index as u64);
            d
        },
    };
    assert(name@ == endpoint_name(opt_text(friendly_name), is_input, index));
    assert(id@ == endpoint_id(opt_text(device_id), is_input, index));
    let mut i: usize = 0;
    while i < list.len()
        invariant
            i <= list.len(),
            list@ == old(list)@,
            name@ == endpoint_name(opt_text(friendly_name), is_input, index),
            forall|k: int| 0 <= k < i ==> (#[trigger] list@[k]).name@ != name@,
        decreases list.len() - i,
    {
        if list[i].name == name {
            assert(list@[i as int].name@ == name@);
            assert(has_device_named(old(list)@, name@));
            return;
        }
        i = i + 1;
    }
    list.push(AudioDeviceInfo { name, id, is_input, is_default: index == 0 });
    assert(list@.take(old(list)@.len() as int) =~= old(list)@);
}

/// The processor.
#[derive(Debug, Clone)]
pub struct CpuInfo {
    pub name: String,
    pub cores: u32,
    pub logical_processors: u32,
    pub architecture: String,
}

/// The name of a processor architecture code: 9 is x86_64, 12 is ARM64,
/// 0 is x86, anything else is unknown.
pub open spec fn architecture_name(code: u16) -> Seq<char> {
    if code == 9 {
        "x86_64"@
    } else if code == 12 {
        "ARM64"@
    } else if code == 0 {
        "x86"@
    } else {
        "Unknown"@
    }
}

impl CpuInfo {
    /// The processor from its name, its processor count and its
    /// architecture code; cores and logical processors are both the count.
    pub fn from_system(name: String, processors: u32, architecture_code: u16) -> (c: CpuInfo)
        ensures
            c.name == name,
            c.cores == processors,
            c.logical_processors == processors,
            c.architecture@ == architecture_name(architecture_code),
    {
        let architecture = if architecture_code == 9 {
            String::from_str("x86_64")
        } else if architecture_code == 12 {
            String::from_str("ARM64")
        } else if architecture_code == 0 {
            String::from_str("x86")
        } else {
            String::from_str("Unknown")
        };
        CpuInfo { name, cores: processors, logical_processors: processors, architecture }
    }
}

/// The operating system version written as `Windows MAJOR.MINOR.BUILD`.
pub fn os_version_text(major: u32, minor: u32, build: u32) -> (s: String)
    ensures
        s@ == "Windows "@ + decimal(major as nat) + seq!['.'] + decimal(minor as nat) + seq!['.']
            + decimal(build as nat),
{
    let mut s = String::from_str("Windows ");
    push_decimal(&mut s, major as u64);
    push_char(&mut s, '.');
    push_decimal(&mut s, minor as u64);
    push_char(&mut s, '.');
    push_decimal(&mut s, build as u64);
    s
}

/// Windows Graphics Capture needs Windows 10 build 18362 or later.
pub fn graphics_capture_supported(major: u32, build: u32) -> (b: bool)
    ensures
        b == (major >= 10 && build >= 18362),
{
    major >= 10 && build >= 18362
}

/// What the machine can do, and what is recommended for it.
#[derive(Debug, Clone)]
pub struct SystemProfile {
    pub cpu: CpuInfo,
    pub gpus: Vec<GpuInfo>,
    pub primary_gpu: Option<GpuInfo>,
    pub best_encoder: HardwareEncoder,
    pub monitors: Vec<MonitorInfo>,
    pub audio_outputs: Vec<AudioDeviceInfo>,
    pub audio_inputs: Vec<AudioDeviceInfo>,
    pub cameras: Vec<CameraInfo>,
    pub os_version: String,
    pub total_ram_mb: u64,
    pub recommended_resolution: String,
    pub recommended_fps: u32,
    pub supports_4k60: bool,
    pub supports_av1: bool,
    pub windows_graphics_capture_supported: bool,
}

impl SystemProfile {
    /// The profile of the detected devices: the first GPU is the primary
    /// one, and the best encoder, AV1 and 4K60 support, the recommended
    /// resolution and frame rate (60 with 4K60 support, else 30) follow
    /// from the GPUs and the memory.
    pub fn from_detected(
        cpu: CpuInfo,
        gpus: Vec<GpuInfo>,
        monitors: Vec<MonitorInfo>,
        audio_outputs: Vec<AudioDeviceInfo>,
        audio_inputs: Vec<AudioDeviceInfo>,
        cameras: Vec<CameraInfo>,
        os_version: String,
        total_ram_mb: u64,
        windows_graphics_capture_supported: bool,
    ) -> (p: SystemProfile)
        ensures
            p.cpu == cpu,
            p.gpus@ == gpus@,
            gpus@.len() == 0 ==> p.primary_gpu is None,
            gpus@.len() > 0 ==> (p.primary_gpu matches Some(g) && same_gpu(g, gpus@[0])),
            p.best_encoder == best_encoder_of(gpus@),
            p.monitors@ == monitors@,
            p.audio_outputs@ == audio_outputs@,
            p.audio_inputs@ == audio_inputs@,
            p.cameras@ == cameras@,
            p.os_version == os_version,
            p.total_ram_mb == total_ram_mb,
            p.recommended_resolution@ == recommended_resolution_of(gpus@, total_ram_mb),
            p.recommended_fps == if any_4k60(gpus@) { 60u32 } else { 30u32 },
            p.supports_4k60 == any_4k60(gpus@),
            p.supports_av1 == any_av1(gpus@),
            p.windows_graphics_capture_supported == windows_graphics_capture_supported,
    {
        let primary_gpu = if gpus.len() > 0 { Some(gpus[0].duplicate()) } else { None };
        let best_encoder = determine_best_encoder(gpus.as_slice());
        let supports_av1 = any_gpu_av1(gpus.as_slice());
        let supports_4k60 = any_gpu_4k60(gpus.as_slice());
        let recommended_resolution = recommend_resolution(gpus.as_slice(), total_ram_mb);
        let recommended_fps: u32 = if supports_4k60 { 60 } else { 30 };
        SystemProfile {
            cpu,
            gpus,
            primary_gpu,
            best_encoder,
            monitors,
            audio_outputs,
            audio_inputs,
            cameras,
            os_version,
            total_ram_mb,
            recommended_resolution,
            recommended_fps,
            supports_4k60,
            supports_av1,
            windows_graphics_capture_supported,
        }
    }
}


/// Law of AV1 detection: NVIDIA RTX 40, 50 and 60 series, AMD RX 7000, 8000
/// and 9000 series and Intel Arc GPUs (by their upper-case names) encode
/// AV1; other NVIDIA GPUs and GPUs of unknown vendors do not.
pub proof fn law_av1_series(upper: Seq<char>, label: String)
    ensures
        (contains(upper, "RTX 40"@) || contains(upper, "RTX 50"@) || contains(upper, "RTX 60"@))
            ==> vendor_codecs(GpuVendor::Nvidia, upper).contains(Codec::Av1),
        !(contains(upper, "RTX 40"@) || contains(upper, "RTX 50"@) || contains(upper, "RTX 60"@))
            ==> !vendor_codecs(GpuVendor::Nvidia, upper).contains(Codec::Av1),
        (contains(upper, "RX 7"@) || contains(upper, "RX 8"@) || contains(upper, "RX 9"@))
            ==> vendor_codecs(GpuVendor::Amd, upper).contains(Codec::Av1),
        (contains(upper, "ARC"@) || contains(upper, "A7"@) || contains(upper, "A5"@))
            ==> vendor_codecs(GpuVendor::Intel, upper).contains(Codec::Av1),
        !vendor_codecs(GpuVendor::Unknown(label), upper).contains(Codec::Av1),
{
    let n = vendor_codecs(GpuVendor::Nvidia, upper);
    if contains(upper, "RTX 40"@) || contains(upper, "RTX 50"@) || contains(upper, "RTX 60"@) {
        assert(n[2] == Codec::Av1);
    } else {
        assert(n =~= seq![Codec::H264, Codec::H265]);
        assert(!n.contains(Codec::Av1)) by {
            if n.contains(Codec::Av1) {
                let i = choose|i: int| 0 <= i < n.len() && n[i] == Codec::Av1;
                assert(n[i] != Codec::Av1);
            }
        }
    }
    let a = vendor_codecs(GpuVendor::Amd, upper);
    if contains(upper, "RX 7"@) || contains(upper, "RX 8"@) || contains(upper, "RX 9"@) {
        assert(a[2] == Codec::Av1);
    }
    let t = vendor_codecs(GpuVendor::Intel, upper);
    if contains(upper, "ARC"@) || contains(upper, "A7"@) || contains(upper, "A5"@) {
        assert(t[2] == Codec::Av1);
    }
    let u = vendor_codecs(GpuVendor::Unknown(label), upper);
    assert(u =~= seq![Codec::H264]);
    assert(!u.contains(Codec::Av1)) by {
        if u.contains(Codec::Av1) {
            let i = choose|i: int| 0 <= i < u.len() && u[i] == Codec::Av1;
            assert(u[i] != Codec::Av1);
        }
    }
}

proof fn lemma_max_vram_bounds(gpus: Seq<GpuInfo>)
    ensures
        forall|i: int| 0 <= i < gpus.len() ==> #[trigger] gpus[i].vram_mb <= max_vram(gpus),
        gpus.len() > 0 ==> exists|i: int| 0 <= i < gpus.len() && #[trigger] gpus[i].vram_mb == max_vram(gpus),
        gpus.len() == 0 ==> max_vram(gpus) == 0,
    decreases gpus.len(),
{
    if gpus.len() > 0 {
        let rest = gpus.drop_last();
        lemma_max_vram_bounds(rest);
        assert forall|i: int| 0 <= i < gpus.len() implies #[trigger] gpus[i].vram_mb <= max_vram(gpus) by {
            if i < gpus.len() - 1 {
                assert(gpus[i] == rest[i]);
            }
        }
        if gpus.last().vram_mb > max_vram(rest) {
            assert(gpus[gpus.len() - 1].vram_mb == max_vram(gpus));
        } else if rest.len() > 0 {
            let j = choose|j: int| 0 <= j < rest.len() && #[trigger] rest[j].vram_mb == max_vram(rest);
            assert(gpus[j] == rest[j]);
        } else {
            assert(gpus[0].vram_mb == max_vram(gpus));
        }
    }
}

/// Law of the recommended resolution: it is decided by the largest video
/// memory among all the GPUs and by whether any GPU has a hardware encoder,
/// whatever their order: with some GPU of 8 GB or more, 16 GB of memory and
/// an encoder anywhere it is 1440p60; when no GPU reaches 4 GB it is neither
/// 1440p60 nor 1080p60; and adding a GPU with no more video memory than one
/// already there, which brings no encoder where there was none, leaves it
/// unchanged.
pub proof fn law_resolution_uses_best_gpu(gpus: Seq<GpuInfo>, total_ram_mb: u64, extra: GpuInfo)
    ensures
        ((exists|i: int| 0 <= i < gpus.len() && #[trigger] gpus[i].vram_mb >= 8192)
            && (exists|j: int| 0 <= j < gpus.len() && #[trigger] gpus[j].encoders@.len() > 0)
            && total_ram_mb >= 16384) ==> recommended_resolution_of(gpus, total_ram_mb) == "1440p60"@,
        (forall|i: int| 0 <= i < gpus.len() ==> #[trigger] gpus[i].vram_mb < 4096)
            ==> recommended_resolution_of(gpus, total_ram_mb) != "1440p60"@
            && recommended_resolution_of(gpus, total_ram_mb) != "1080p60"@,
        ((exists|i: int| 0 <= i < gpus.len() && #[trigger] gpus[i].vram_mb >= extra.vram_mb)
            && (extra.encoders@.len() > 0 ==> any_hardware_encoder(gpus)))
            ==> recommended_resolution_of(gpus.push(extra), total_ram_mb)
                == recommended_resolution_of(gpus, total_ram_mb),
{
    reveal_strlit("1440p60");
    reveal_strlit("1080p60");
    reveal_strlit("720p60");
    reveal_strlit("720p30");
    reveal_strlit("480p30");
    lemma_max_vram_bounds(gpus);
    let more = gpus.push(extra);
    assert(more.drop_last() =~= gpus);
    if (exists|i: int| 0 <= i < gpus.len() && #[trigger] gpus[i].vram_mb >= extra.vram_mb)
        && (extra.encoders@.len() > 0 ==> any_hardware_encoder(gpus)) {
        assert(max_vram(more) == max_vram(gpus));
        assert(any_hardware_encoder(more) == any_hardware_encoder(gpus)) by {
            if any_hardware_encoder(gpus) {
                let j = choose|j: int| 0 <= j < gpus.len() && #[trigger] gpus[j].encoders@.len() > 0;
                assert(more[j] == gpus[j]);
            }
            if any_hardware_encoder(more) {
                let j = choose|j: int| 0 <= j < more.len() && #[trigger] more[j].encoders@.len() > 0;
                if j < gpus.len() {
                    assert(more[j] == gpus[j]);
                }
            }
        }
    }
    if forall|i: int| 0 <= i < gpus.len() ==> #[trigger] gpus[i].vram_mb < 4096 {
        if gpus.len() > 0 {
            let k = choose|k: int| 0 <= k < gpus.len() && #[trigger] gpus[k].vram_mb == max_vram(gpus);
            assert(gpus[k].vram_mb < 4096);
        }
        assert(max_vram(gpus) < 4096);
        assert("720p60"@ != "1440p60"@ && "720p60"@ != "1080p60"@ && "720p30"@ != "1440p60"@
            && "720p30"@ != "1080p60"@ && "480p30"@ != "1440p60"@ && "480p30"@ != "1080p60"@) by {
            assert("720p60"@[0] != "1440p60"@[0] || "720p60"@.len() != "1440p60"@.len());
            assert("720p60"@.len() != "1080p60"@.len());
            assert("720p30"@.len() != "1440p60"@.len());
            assert("720p30"@.len() != "1080p60"@.len());
            assert("480p30"@.len() != "1440p60"@.len());
            assert("480p30"@.len() != "1080p60"@.len());
        }
    }
}


/// Law of the best encoder: it is an encoder that some GPU has, or the CPU
/// when no GPU has one, and no GPU has an encoder ranked above it (NVENC
/// above AMF above Quick Sync).
pub proof fn law_best_encoder_is_preferred(gpus: Seq<GpuInfo>)
    ensures
        best_encoder_of(gpus) == HardwareEncoder::Nvenc
            <==> exists|i: int| 0 <= i < gpus.len() && #[trigger] gpus[i].encoders@.contains(HardwareEncoder::Nvenc),
        best_encoder_of(gpus) == HardwareEncoder::Amf ==> {
            &&& exists|i: int| 0 <= i < gpus.len() && #[trigger] gpus[i].encoders@.contains(HardwareEncoder::Amf)
            &&& forall|i: int| 0 <= i < gpus.len() ==> !(#[trigger] gpus[i].encoders@.contains(HardwareEncoder::Nvenc))
        },
        best_encoder_of(gpus) == HardwareEncoder::Qsv ==> {
            &&& exists|i: int| 0 <= i < gpus.len() && #[trigger] gpus[i].encoders@.contains(HardwareEncoder::Qsv)
            &&& forall|i: int| 0 <= i < gpus.len() ==> !(#[trigger] gpus[i].encoders@.contains(HardwareEncoder::Nvenc))
                && !gpus[i].encoders@.contains(HardwareEncoder::Amf)
        },
        best_encoder_of(gpus) == HardwareEncoder::Software ==>
            forall|i: int| 0 <= i < gpus.len() ==> !(#[trigger] gpus[i].encoders@.contains(HardwareEncoder::Nvenc))
                && !gpus[i].encoders@.contains(HardwareEncoder::Amf)
                && !gpus[i].encoders@.contains(HardwareEncoder::Qsv),
{
}

} // verus!
