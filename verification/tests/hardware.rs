use brail_recorder::hardware::{
    add_endpoint, default_audio_devices, detect_encoder_capabilities, determine_best_encoder,
    graphics_capture_supported, os_version_text, recommend_resolution, Codec, CpuInfo, GpuInfo,
    GpuVendor, HardwareEncoder, MonitorInfo, SystemProfile,
};

#[test]
fn vendors_from_pci_ids() {
    assert_eq!(GpuVendor::from_vendor_id(0x10DE), GpuVendor::Nvidia);
    assert_eq!(GpuVendor::from_vendor_id(0x1002), GpuVendor::Amd);
    assert_eq!(GpuVendor::from_vendor_id(0x8086), GpuVendor::Intel);
    assert_eq!(GpuVendor::from_vendor_id(0x1414), GpuVendor::Unknown("0x1414".to_string()));
    assert_eq!(GpuVendor::from_vendor_id(0xabc), GpuVendor::Unknown("0x0ABC".to_string()));
    assert_eq!(GpuVendor::from_vendor_id(0x12345), GpuVendor::Unknown("0x12345".to_string()));
    assert_eq!(GpuVendor::from_vendor_id(0), GpuVendor::Unknown("0x0000".to_string()));
    for id in [0u32, 7, 0x1af4, 0xffff, 0x10000, u32::MAX] {
        if id != 0x10DE && id != 0x1002 && id != 0x8086 {
            assert_eq!(GpuVendor::from_vendor_id(id), GpuVendor::Unknown(format!("0x{:04X}", id)));
        }
    }
}

#[test]
fn encoder_capabilities() {
    let (e, c) = detect_encoder_capabilities(&GpuVendor::Nvidia, "NVIDIA GeForce RTX 4090", 24564);
    assert_eq!(e, vec![HardwareEncoder::Nvenc]);
    assert_eq!(c, vec![Codec::H264, Codec::H265, Codec::Av1]);
    // the name is compared in upper case
    let (_, c) = detect_encoder_capabilities(&GpuVendor::Nvidia, "nvidia geforce rtx 4070", 12000);
    assert_eq!(c, vec![Codec::H264, Codec::H265, Codec::Av1]);
    let (_, c) = detect_encoder_capabilities(&GpuVendor::Nvidia, "NVIDIA GeForce RTX 3080", 10000);
    assert_eq!(c, vec![Codec::H264, Codec::H265]);
    let (e, c) = detect_encoder_capabilities(&GpuVendor::Amd, "AMD Radeon rx 7900 XTX", 24000);
    assert_eq!(e, vec![HardwareEncoder::Amf]);
    assert_eq!(c, vec![Codec::H264, Codec::H265, Codec::Av1]);
    let (e, c) = detect_encoder_capabilities(&GpuVendor::Intel, "Intel(R) Arc(TM) A770", 16000);
    assert_eq!(e, vec![HardwareEncoder::Qsv]);
    assert_eq!(c, vec![Codec::H264, Codec::H265, Codec::Av1]);
    let (e, c) = detect_encoder_capabilities(&GpuVendor::Unknown("0x1414".into()), "Microsoft Basic Render", 0);
    assert!(e.is_empty());
    assert_eq!(c, vec![Codec::H264]);
}

fn gpu(vendor_id: u32, name: &str, vram_mb: u64) -> GpuInfo {
    GpuInfo::from_adapter(name, vendor_id, vram_mb * 1024 * 1024)
}

#[test]
fn adapters_become_gpus() {
    let g = GpuInfo::from_adapter("  NVIDIA GeForce RTX 4060 \u{0}", 0x10DE, 8 * 1024 * 1024 * 1024 + 5);
    assert_eq!(g.name, "NVIDIA GeForce RTX 4060 \u{0}".trim());
    assert_eq!(g.vram_mb, 8192);
    assert_eq!(g.vendor, GpuVendor::Nvidia);
    assert_eq!(g.encoders, vec![HardwareEncoder::Nvenc]);
    assert!(g.driver_version.is_empty());
    let h = GpuInfo::from_adapter("\u{3000}Intel UHD\t\n", 0x8086, 0);
    assert_eq!(h.name, "Intel UHD");
}

#[test]
fn best_encoder_order() {
    assert_eq!(determine_best_encoder(&[]), HardwareEncoder::Software);
    let intel = gpu(0x8086, "Intel UHD 770", 0);
    let amd = gpu(0x1002, "AMD Radeon RX 6600", 8192);
    let nvidia = gpu(0x10DE, "NVIDIA GeForce GTX 1660", 6144);
    assert_eq!(determine_best_encoder(&[intel.clone()]), HardwareEncoder::Qsv);
    assert_eq!(determine_best_encoder(&[intel.clone(), amd.clone()]), HardwareEncoder::Amf);
    assert_eq!(determine_best_encoder(&[intel, amd, nvidia]), HardwareEncoder::Nvenc);
}

#[test]
fn recommended_resolutions() {
    let big = gpu(0x10DE, "RTX", 12288);
    let mid = gpu(0x1002, "RX", 4096);
    let unknown = gpu(0x1234, "Other", 16384);
    assert_eq!(recommend_resolution(&[big.clone()], 32768), "1440p60");
    assert_eq!(recommend_resolution(&[big.clone()], 8192), "1080p60");
    assert_eq!(recommend_resolution(&[mid.clone()], 16384), "1080p60");
    assert_eq!(recommend_resolution(&[mid], 4096), "720p60");
    assert_eq!(recommend_resolution(&[unknown.clone()], 8192), "720p30");
    assert_eq!(recommend_resolution(&[unknown], 4096), "480p30");
    assert_eq!(recommend_resolution(&[], 4096), "480p30");
}

#[test]
fn system_profile_summary() {
    let cpu = CpuInfo::from_system("Intel64 Family 6".to_string(), 16, 9);
    assert_eq!(cpu.architecture, "x86_64");
    assert_eq!(cpu.logical_processors, 16);
    let gpus = vec![gpu(0x8086, "Intel UHD", 0), gpu(0x10DE, "NVIDIA RTX 4080", 16384)];
    let (outs, ins) = default_audio_devices();
    let p = SystemProfile::from_detected(cpu, gpus, Vec::new(), outs, ins, Vec::new(), os_version_text(10, 0, 22631), 32768, true);
    assert_eq!(p.primary_gpu.as_ref().map(|g| g.name.clone()), Some("Intel UHD".to_string()));
    assert_eq!(p.best_encoder, HardwareEncoder::Nvenc);
    assert!(p.supports_av1);
    assert!(p.supports_4k60);
    assert_eq!(p.recommended_fps, 60);
    assert_eq!(p.recommended_resolution, "1440p60");
    assert_eq!(p.os_version, "Windows 10.0.22631");
    let q = SystemProfile::from_detected(
        CpuInfo::from_system("ARM".into(), 8, 12), Vec::new(), Vec::new(), Vec::new(), Vec::new(), Vec::new(),
        String::new(), 4096, false,
    );
    assert!(q.primary_gpu.is_none());
    assert_eq!(q.recommended_fps, 30);
    assert!(!q.supports_4k60 && !q.supports_av1);
    assert_eq!(q.cpu.architecture, "ARM64");
    assert_eq!(CpuInfo::from_system(String::new(), 1, 0).architecture, "x86");
    assert_eq!(CpuInfo::from_system(String::new(), 1, 5).architecture, "Unknown");
}

#[test]
fn monitors() {
    let m = MonitorInfo::from_display("\\\\.\\DISPLAY1", 0, -1920, 0, 0, 1080, Some(144), 1, 120, 77);
    assert_eq!(m.name, "\\\\.\\DISPLAY1");
    assert_eq!(m.id, "monitor_0");
    assert_eq!((m.width, m.height, m.refresh_rate), (1920, 1080, 144));
    assert!(m.primary);
    let n = MonitorInfo::from_display("DISPLAY2", 1, 0, 0, 2560, 1440, None, 0, 96, 1);
    assert_eq!(n.id, "monitor_1");
    assert_eq!(n.refresh_rate, 60);
    assert!(!n.primary);
}

#[test]
fn audio_endpoints_are_deduplicated_by_name() {
    let (mut outs, ins) = default_audio_devices();
    assert_eq!(outs[0].name, "Default System Audio");
    assert_eq!(ins[0].id, "default_input");
    add_endpoint(&mut outs, Some("Speakers".into()), Some("{id-1}".into()), false, 0);
    add_endpoint(&mut outs, Some("Speakers".into()), Some("{id-2}".into()), false, 1);
    add_endpoint(&mut outs, None, None, false, 2);
    assert_eq!(outs.len(), 3);
    assert_eq!(outs[1].id, "{id-1}");
    assert!(outs[1].is_default);
    assert_eq!(outs[2].name, "Output Device 2");
    assert_eq!(outs[2].id, "output_2");
    assert!(!outs[2].is_default);
    let mut ins = ins;
    add_endpoint(&mut ins, None, None, true, 3);
    assert_eq!(ins[1].name, "Input Device 3");
    assert_eq!(ins[1].id, "input_3");
}

#[test]
fn windows_version_checks() {
    assert!(graphics_capture_supported(10, 18362));
    assert!(!graphics_capture_supported(10, 18361));
    assert!(!graphics_capture_supported(6, 20000));
    assert_eq!(os_version_text(6, 1, 7601), "Windows 6.1.7601");
}
