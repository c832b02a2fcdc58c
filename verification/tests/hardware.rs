use brail::config::{EncoderBackend, Resolution, VideoCodec};
use brail::hardware::{
    assemble_profile, capabilities_from_probe, cpu_brand_string, cpu_info, detect_windows_version, dpi_scale_percent,
    encoder_candidates, friendly_name_for_device, gpu_vendor_from_id, is_software_adapter, mark_capture_adapter,
    max_fps_for, max_resolution_for, monitor_info, parse_decimal_u32, physical_core_count, recommended_preset,
    registry_string, widestring,
};
use brail::hotkeys::{action_for_hotkey, binding_for, hotkey_modifiers, hotkey_slots, virtual_key_from_name, HotkeyAction};
use brail::profile::{EncoderCapability, GpuInfo, GpuVendor, HotkeyBindings, RecommendedPreset};

fn gpu(name: &str, vendor: GpuVendor, vram: u64) -> GpuInfo {
    GpuInfo { name: name.to_string(), vendor, dedicated_vram_mb: vram, driver_version: String::new(), is_capture_adapter: false }
}

fn cap(backend: EncoderBackend, w: u32, h: u32, verified: bool) -> EncoderCapability {
    EncoderCapability { backend, codec: VideoCodec::H264, max_resolution: Resolution::new(w, h), max_fps_at_max_resolution: 60, verified }
}

fn le_regs(text: &[u8; 48]) -> [u32; 12] {
    let mut regs = [0u32; 12];
    for (i, r) in regs.iter_mut().enumerate() {
        *r = u32::from_le_bytes([text[4 * i], text[4 * i + 1], text[4 * i + 2], text[4 * i + 3]]);
    }
    regs
}

#[test]
fn recommended_preset_follows_ram_and_encoders() {
    let hw = vec![cap(EncoderBackend::Nvenc, 3840, 2160, true)];
    assert_eq!(recommended_preset(&hw, 32_768), RecommendedPreset::HighEnd1440p60);
    assert_eq!(recommended_preset(&hw, 12_000), RecommendedPreset::Gaming1080p60);
    assert_eq!(recommended_preset(&hw, 4_096), RecommendedPreset::LowEnd720p30);
    let sw_only = vec![cap(EncoderBackend::Software, 7680, 4320, true)];
    assert_eq!(recommended_preset(&sw_only, 65_536), RecommendedPreset::LowEnd720p30);
    let unverified = vec![cap(EncoderBackend::Amf, 3840, 2160, false)];
    assert_eq!(recommended_preset(&unverified, 65_536), RecommendedPreset::LowEnd720p30);
    let small_hw = vec![cap(EncoderBackend::Qsv, 1920, 1080, true)];
    assert_eq!(recommended_preset(&small_hw, 65_536), RecommendedPreset::Gaming1080p60);
}

#[test]
fn encoder_ceilings() {
    assert_eq!(max_resolution_for(EncoderBackend::Software, VideoCodec::H264), Resolution::new(7680, 4320));
    assert_eq!(max_resolution_for(EncoderBackend::Nvenc, VideoCodec::Av1), Resolution::new(7680, 4320));
    assert_eq!(max_resolution_for(EncoderBackend::Nvenc, VideoCodec::Hevc), Resolution::new(4096, 4096));
    assert_eq!(max_fps_for(EncoderBackend::Software), 60);
    assert_eq!(max_fps_for(EncoderBackend::Qsv), 120);
}

#[test]
fn candidates_follow_the_adapters_present() {
    let none = encoder_candidates(&Vec::new());
    assert_eq!(none, vec![(EncoderBackend::Software, VideoCodec::H264, "libx264"), (EncoderBackend::Software, VideoCodec::Hevc, "libx265")]);
    let gpus = vec![gpu("A", GpuVendor::Intel, 128), gpu("B", GpuVendor::Nvidia, 8192)];
    let c = encoder_candidates(&gpus);
    assert_eq!(c.len(), 8);
    assert_eq!(c[2], (EncoderBackend::Nvenc, VideoCodec::H264, "h264_nvenc"));
    assert_eq!(c[7], (EncoderBackend::Qsv, VideoCodec::Av1, "av1_qsv"));
    let caps = capabilities_from_probe(&c, &vec![false, true, true, false, true, false, false, false]);
    assert_eq!(caps.len(), 4);
    assert_eq!(caps[0].backend, EncoderBackend::Software);
    assert!(caps[0].verified);
    assert!(caps[1].verified);
    assert_eq!(caps[2].backend, EncoderBackend::Nvenc);
    assert_eq!(caps[2].codec, VideoCodec::H264);
    assert_eq!(caps[2].max_fps_at_max_resolution, 120);
    assert_eq!(caps[3].codec, VideoCodec::Av1);
}

#[test]
fn vendors_from_pci_ids() {
    assert_eq!(gpu_vendor_from_id(0x10DE), GpuVendor::Nvidia);
    assert_eq!(gpu_vendor_from_id(0x1002), GpuVendor::Amd);
    assert_eq!(gpu_vendor_from_id(0x1022), GpuVendor::Amd);
    assert_eq!(gpu_vendor_from_id(0x8086), GpuVendor::Intel);
    assert_eq!(gpu_vendor_from_id(0x1414), GpuVendor::Other);
    assert!(is_software_adapter(0x1414));
    assert!(!is_software_adapter(0x10DE));
}

#[test]
fn capture_adapter_is_the_first_with_most_memory() {
    let mut gpus = vec![gpu("igpu", GpuVendor::Intel, 128), gpu("dgpu", GpuVendor::Nvidia, 8192), gpu("other", GpuVendor::Amd, 8192)];
    mark_capture_adapter(&mut gpus);
    assert!(!gpus[0].is_capture_adapter);
    assert!(gpus[1].is_capture_adapter);
    assert!(!gpus[2].is_capture_adapter);
}

#[test]
fn windows_version_text() {
    let (build, name) = detect_windows_version(Some("22631".to_string()), Some("Windows 11 Pro".to_string()), Some("23H2".to_string()));
    assert_eq!(build, 22631);
    assert_eq!(name, "Windows 11 Pro 23H2 (build 22631)");
    let (build, name) = detect_windows_version(Some("garbage".to_string()), None, None);
    assert_eq!(build, 0);
    assert_eq!(name, "Windows (unknown edition) (build 0)");
    assert_eq!(parse_decimal_u32("4294967295"), Some(u32::MAX));
    assert_eq!(parse_decimal_u32("4294967296"), None);
    assert_eq!(parse_decimal_u32("+7"), Some(7));
    assert_eq!(parse_decimal_u32(""), None);
}

#[test]
fn wide_strings_are_nul_terminated_utf16() {
    assert_eq!(widestring("A\u{1F600}"), vec![0x41, 0xD83D, 0xDE00, 0]);
    assert_eq!(widestring(""), vec![0]);
}

#[test]
fn cpu_brand_is_trimmed() {
    let mut text = [0u8; 48];
    let brand = b"  Intel(R) Core(TM) i7-9700K CPU @ 3.60GHz";
    text[..brand.len()].copy_from_slice(brand);
    assert_eq!(cpu_brand_string(&le_regs(&text)), "Intel(R) Core(TM) i7-9700K CPU @ 3.60GHz");
    assert_eq!(cpu_brand_string(&[0u32; 12]), "");
}

#[test]
fn core_counts_and_memory() {
    assert_eq!(physical_core_count(&vec![true, false, true, true]), Some(3));
    assert_eq!(physical_core_count(&vec![false, false]), None);
    assert_eq!(physical_core_count(&Vec::new()), None);
    let c = cpu_info("cpu".to_string(), 16, None, 16 * 1024 * 1024 * 1024 + 5);
    assert_eq!(c.physical_cores, 16);
    assert_eq!(c.total_ram_mb, 16_384);
    let c = cpu_info("cpu".to_string(), 16, Some(8), 0);
    assert_eq!(c.physical_cores, 8);
    assert_eq!(c.logical_cores, 16);
}

#[test]
fn monitors_from_display_reports() {
    let mut field: Vec<u16> = "\\\\.\\DISPLAY1".encode_utf16().collect();
    field.resize(32, 0);
    let m = monitor_info(&field, 77, -1920, 0, 0, 1080, Some(144), Some(144), 1);
    assert_eq!(m.id, "\\\\.\\DISPLAY1");
    assert_eq!(m.friendly_name, m.id);
    assert_eq!(m.handle_id, 77);
    assert_eq!(m.resolution, Resolution::new(1920, 1080));
    assert_eq!(m.refresh_rate_hz, 144);
    assert!(m.is_primary);
    assert_eq!(m.dpi_scale_percent, 150);
    let unterminated: Vec<u16> = "ABC".encode_utf16().collect();
    let m = monitor_info(&unterminated, 1, 0, 0, 2560, 1440, None, None, 0);
    assert_eq!(m.id, "");
    assert_eq!(m.refresh_rate_hz, 60);
    assert!(!m.is_primary);
    assert_eq!(m.dpi_scale_percent, 100);
    assert_eq!(dpi_scale_percent(Some(96)), 100);
    assert_eq!(dpi_scale_percent(Some(120)), 125);
    assert_eq!(friendly_name_for_device("\\\\.\\DISPLAY1"), None);
}

#[test]
fn registry_strings_drop_the_terminator() {
    let mut buf = [0u16; 256];
    let text: Vec<u16> = "22631".encode_utf16().collect();
    buf[..text.len()].copy_from_slice(&text);
    assert_eq!(registry_string(&buf, 12), "22631");
    assert_eq!(registry_string(&buf, 0), "");
    assert_eq!(registry_string(&buf, 1), "");
}

#[test]
fn profiles_carry_the_recommendation() {
    let cpu = cpu_info("cpu".to_string(), 8, Some(4), 8 * 1024 * 1024 * 1024);
    let encoders = vec![cap(EncoderBackend::Nvenc, 1920, 1080, true)];
    let p = assemble_profile(cpu, Vec::new(), Vec::new(), vec!["Mic".to_string()], vec!["Speakers".to_string()], Vec::new(), 19045, "Windows 10".to_string(), encoders);
    assert_eq!(p.total_ram_mb, 8192);
    assert_eq!(p.cpu_physical_cores, 4);
    assert_eq!(p.audio_input_devices, vec!["Mic".to_string()]);
    assert_eq!(p.recommended_preset, RecommendedPreset::Gaming1080p60);
}

#[test]
fn default_hotkeys_and_their_ids() {
    let b = HotkeyBindings::default();
    let rec = binding_for(&b, HotkeyAction::StartStopRecording).unwrap();
    assert!(rec.ctrl && rec.shift && !rec.alt && !rec.win);
    assert_eq!(rec.key, "F9");
    assert!(binding_for(&b, HotkeyAction::ToggleWebcam).is_none());
    let slots = hotkey_slots(&b);
    assert_eq!(slots.len(), 7);
    assert_eq!(slots[0], (0xB000, HotkeyAction::StartStopRecording));
    assert_eq!(slots[5], (0xB006, HotkeyAction::PauseResumeRecording));
    assert_eq!(action_for_hotkey(&slots, 0xB007), Some(HotkeyAction::TakeScreenshot));
    assert_eq!(action_for_hotkey(&slots, 0xB005), None);
    assert_eq!(hotkey_modifiers(rec), 0x4000 | 2 | 4);
    let replay = binding_for(&b, HotkeyAction::SaveReplay).unwrap();
    assert_eq!(hotkey_modifiers(replay), 0x4000);
}

#[test]
fn key_names_map_to_virtual_keys() {
    assert_eq!(virtual_key_from_name("F1"), Some(0x70));
    assert_eq!(virtual_key_from_name("F9"), Some(0x78));
    assert_eq!(virtual_key_from_name("F12"), Some(0x7B));
    assert_eq!(virtual_key_from_name("F13"), None);
    assert_eq!(virtual_key_from_name("m"), Some(0x4D));
    assert_eq!(virtual_key_from_name("7"), Some(0x37));
    assert_eq!(virtual_key_from_name("Space"), None);
}

#[test]
fn adapters_from_dxgi_descriptions() {
    let mut desc: Vec<u16> = "NVIDIA GeForce RTX 4070".encode_utf16().collect();
    desc.resize(128, 0);
    let g = brail::hardware::adapter_info(&desc, 0x10DE, 12 * 1024 * 1024 * 1024).unwrap();
    assert_eq!(g.name, "NVIDIA GeForce RTX 4070");
    assert_eq!(g.vendor, GpuVendor::Nvidia);
    assert_eq!(g.dedicated_vram_mb, 12 * 1024);
    assert_eq!(g.driver_version, "unknown (resolve via driver store on target machine)");
    assert!(!g.is_capture_adapter);
    let full: Vec<u16> = "ABCD".encode_utf16().collect();
    assert_eq!(brail::hardware::adapter_info(&full, 0x8086, 0).unwrap().name, "ABCD");
    assert!(brail::hardware::adapter_info(&desc, 0x1414, 0).is_none());
}

#[test]
fn hotkey_registration_errors_name_the_action() {
    assert_eq!(brail::hotkeys::unknown_key_message("Space"), "unknown key name 'Space'");
    match brail::hotkeys::registration_error(HotkeyAction::SaveReplay, "in use") {
        brail::error::BrailError::HotkeyRegistrationFailed(m) => assert_eq!(m, "SaveReplay: in use"),
        _ => panic!("wrong error"),
    }
}

#[test]
fn registration_attempts_are_booked_one_by_one() {
    let mut registered = Vec::new();
    assert!(brail::hotkeys::record_registration(&mut registered, 0xB000, HotkeyAction::SaveReplay, "F10", Some(Ok(()))).is_none());
    assert_eq!(registered, vec![(0xB000, HotkeyAction::SaveReplay)]);
    match brail::hotkeys::record_registration(&mut registered, 0xB001, HotkeyAction::TakeScreenshot, "F11", Some(Err("in use".to_string()))) {
        Some(brail::error::BrailError::HotkeyRegistrationFailed(m)) => assert_eq!(m, "TakeScreenshot: in use"),
        _ => panic!("wrong error"),
    }
    match brail::hotkeys::record_registration(&mut registered, 0xB002, HotkeyAction::SaveReplay, "Spaec", None) {
        Some(brail::error::BrailError::HotkeyRegistrationFailed(m)) => assert_eq!(m, "SaveReplay: unknown key name 'Spaec'"),
        _ => panic!("wrong error"),
    }
    assert_eq!(registered.len(), 1);
}
