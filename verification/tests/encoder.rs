use brail_recorder::encoder::{encoders_in_listing, first_line, EncoderConfig, EncoderPreset, H264Profile, RateControl};
use brail_recorder::hardware::{Codec, HardwareEncoder};

fn strs(v: &[&str]) -> Vec<String> {
    v.iter().map(|s| s.to_string()).collect()
}

#[test]
fn presets_per_encoder() {
    assert_eq!(EncoderPreset::UltraFast.to_ffmpeg_preset(&HardwareEncoder::Nvenc), "p1");
    assert_eq!(EncoderPreset::Quality.to_ffmpeg_preset(&HardwareEncoder::Nvenc), "p7");
    assert_eq!(EncoderPreset::VeryFast.to_ffmpeg_preset(&HardwareEncoder::Amf), "speed");
    assert_eq!(EncoderPreset::Medium.to_ffmpeg_preset(&HardwareEncoder::Amf), "balanced");
    assert_eq!(EncoderPreset::SuperFast.to_ffmpeg_preset(&HardwareEncoder::Qsv), "veryfast");
    assert_eq!(EncoderPreset::Fast.to_ffmpeg_preset(&HardwareEncoder::Qsv), "fast");
    assert_eq!(EncoderPreset::Quality.to_ffmpeg_preset(&HardwareEncoder::Software), "veryslow");
}

#[test]
fn encoder_names() {
    let mut c = EncoderConfig::default();
    assert_eq!(c.ffmpeg_encoder_name(), "libx264");
    assert_eq!(c.display_name(), "Software (CPU) H.264");
    c.encoder = HardwareEncoder::Nvenc;
    c.codec = Codec::H265;
    assert_eq!(c.ffmpeg_encoder_name(), "hevc_nvenc");
    assert_eq!(c.display_name(), "NVIDIA NVENC H.265/HEVC");
    c.encoder = HardwareEncoder::Software;
    c.codec = Codec::Av1;
    assert_eq!(c.ffmpeg_encoder_name(), "libaom-av1");
    c.encoder = HardwareEncoder::Qsv;
    assert_eq!(c.display_name(), "Intel QSV AV1");
}

#[test]
fn default_file_arguments() {
    let c = EncoderConfig::default();
    assert_eq!(c.preset, EncoderPreset::UltraFast);
    assert_eq!(
        c.build_ffmpeg_args("out.mkv"),
        strs(&[
            "-y", "-f", "rawvideo", "-pix_fmt", "bgra", "-s", "1920x1080", "-r", "60", "-i", "pipe:0",
            "-c:v", "libx264", "-b:v", "6000k", "-maxrate", "6000k", "-bufsize", "12000k",
            "-preset", "ultrafast", "-profile:v", "high", "-g", "120", "-keyint_min", "120",
            "-bf", "2", "-pix_fmt", "yuv420p", "out.mkv",
        ])
    );
}

#[test]
fn cqp_vbr_and_amf_arguments() {
    let mut c = EncoderConfig::default();
    c.encoder = HardwareEncoder::Nvenc;
    c.rate_control = RateControl::CQP;
    c.quality = 19;
    c.preset = EncoderPreset::UltraFast;
    c.profile = H264Profile::Main;
    c.b_frames = 0;
    assert_eq!(
        c.build_ffmpeg_args("a.mp4"),
        strs(&[
            "-y", "-f", "rawvideo", "-pix_fmt", "bgra", "-s", "1920x1080", "-r", "60", "-i", "pipe:0",
            "-c:v", "h264_nvenc", "-rc", "constqp", "-qp", "19", "-preset", "p1",
            "-profile:v", "main", "-g", "120", "-keyint_min", "120", "-pix_fmt", "yuv420p", "a.mp4",
        ])
    );
    let mut c = EncoderConfig::default();
    c.encoder = HardwareEncoder::Amf;
    c.codec = Codec::H265;
    c.rate_control = RateControl::VBR;
    c.width = 1280;
    c.height = 720;
    c.fps = 30;
    c.keyframe_interval = 4;
    assert_eq!(
        c.build_ffmpeg_args("b.mkv"),
        strs(&[
            "-y", "-f", "rawvideo", "-pix_fmt", "bgra", "-s", "1280x720", "-r", "30", "-i", "pipe:0",
            "-c:v", "hevc_amf", "-b:v", "6000k", "-maxrate", "8000k", "-bufsize", "16000k",
            "-g", "120", "-keyint_min", "120", "-pix_fmt", "yuv420p", "b.mkv",
        ])
    );
    let mut c = EncoderConfig::default();
    c.encoder = HardwareEncoder::Qsv;
    c.rate_control = RateControl::CQP;
    let args = c.build_ffmpeg_args("q.mkv");
    assert_eq!(&args[12..16], &strs(&["h264_qsv", "-q:v", "23", "-preset"])[..]);
    c.encoder = HardwareEncoder::Software;
    let args = c.build_ffmpeg_args("s.mkv");
    assert_eq!(&args[13..15], &strs(&["-crf", "23"])[..]);
}

#[test]
fn stream_arguments() {
    let mut c = EncoderConfig::default();
    c.encoder = HardwareEncoder::Amf;
    c.fps = 30;
    c.bitrate_kbps = 4500;
    assert_eq!(
        c.build_stream_args("rtmp://h/app/key"),
        strs(&[
            "-y", "-f", "rawvideo", "-pix_fmt", "bgra", "-s", "1920x1080", "-r", "30", "-i", "pipe:0",
            "-c:v", "h264_amf", "-b:v", "4500k", "-maxrate", "4500k", "-bufsize", "9000k",
            "-preset", "speed", "-profile:v", "high", "-bf", "0", "-g", "60", "-keyint_min", "60",
            "-pix_fmt", "yuv420p", "-f", "flv", "rtmp://h/app/key",
        ])
    );
    c.encoder = HardwareEncoder::Nvenc;
    c.codec = Codec::H265;
    assert_eq!(
        c.build_stream_args("rtmp://h/app/key"),
        strs(&[
            "-y", "-f", "rawvideo", "-pix_fmt", "bgra", "-s", "1920x1080", "-r", "30", "-i", "pipe:0",
            "-c:v", "hevc_nvenc", "-b:v", "4500k", "-maxrate", "4500k", "-bufsize", "9000k",
            "-preset", "p1", "-g", "60", "-keyint_min", "60",
            "-pix_fmt", "yuv420p", "-f", "flv", "rtmp://h/app/key",
        ])
    );
}

#[test]
fn encoder_listing_probe() {
    let listing = " V....D h264_nvenc  NVIDIA NVENC H.264 encoder\n V....D libx264 libx264 H.264\n V....D libx265 x265\n";
    assert_eq!(encoders_in_listing(listing), strs(&["h264_nvenc", "libx264", "libx265"]));
    assert!(encoders_in_listing("nothing here").is_empty());
}

#[test]
fn first_output_line() {
    assert_eq!(first_line("ffmpeg version 6.1 Copyright\nbuilt with gcc"), Some("ffmpeg version 6.1 Copyright".to_string()));
    assert_eq!(first_line("line\r\nnext"), Some("line".to_string()));
    assert_eq!(first_line("only"), Some("only".to_string()));
    assert_eq!(first_line("\nx"), Some(String::new()));
    assert_eq!(first_line(""), None);
    for s in ["a\nb", "a\r\nb", "abc", "x\r", "\r\n", "\n"] {
        assert_eq!(first_line(s).as_deref(), s.lines().next());
    }
}
