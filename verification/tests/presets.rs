use brail::config::{
    resolution_presets, EncoderBackend, EncoderPreset, EncoderProfile, FrameRate, RateControlMode,
    ReconnectPolicy, Resolution, StreamingService, VideoCodec,
};
use brail::presets::{
    all_quality_presets, best_encoder_for, build_encoder_settings, filter_supported,
    recommended_bitrate_kbps, youtube_presets, QualityPreset,
};
use brail::profile::{CapabilityProfile, EncoderCapability, RecommendedPreset};

fn encoder(backend: EncoderBackend, codec: VideoCodec, w: u32, h: u32, verified: bool) -> EncoderCapability {
    EncoderCapability {
        backend,
        codec,
        max_resolution: Resolution::new(w, h),
        max_fps_at_max_resolution: 60,
        verified,
    }
}

fn profile_with(encoders: Vec<EncoderCapability>) -> CapabilityProfile {
    CapabilityProfile {
        cpu_name: "Test CPU".to_string(),
        cpu_physical_cores: 8,
        cpu_logical_cores: 16,
        total_ram_mb: 16384,
        gpus: Vec::new(),
        windows_build: 22631,
        windows_version_name: "Windows 11".to_string(),
        monitors: Vec::new(),
        audio_input_devices: Vec::new(),
        audio_output_devices: Vec::new(),
        cameras: Vec::new(),
        supported_encoders: encoders,
        recommended_preset: RecommendedPreset::Custom,
    }
}

#[test]
fn resolution_pixel_count_multiplies() {
    assert_eq!(Resolution::new(1920, 1080).pixel_count(), 2_073_600);
    assert_eq!(Resolution::new(u32::MAX, u32::MAX).pixel_count(), (u32::MAX as u64) * (u32::MAX as u64));
}

#[test]
fn resolution_rungs_run_from_144p_to_2160p() {
    let v = resolution_presets();
    assert_eq!(v.len(), 10);
    assert_eq!(v[0].0, "144p");
    assert_eq!(v[0].1, Resolution::new(256, 144));
    assert_eq!(v[9].0, "2160p");
    assert_eq!(v[9].1, Resolution::new(3840, 2160));
}

#[test]
fn frame_rates_and_backend_names() {
    assert_eq!(FrameRate::Fps30.as_u32(), 30);
    assert_eq!(FrameRate::Fps120.as_u32(), 120);
    assert_eq!(EncoderBackend::Nvenc.display_name(VideoCodec::H264), "NVIDIA NVENC H.264");
    assert_eq!(EncoderBackend::Software.display_name(VideoCodec::Av1), "Software (CPU) AV1");
    assert!(EncoderBackend::Qsv.is_hardware());
    assert!(!EncoderBackend::Software.is_hardware());
}

#[test]
fn services_have_documented_ingests() {
    assert_eq!(StreamingService::Twitch.default_server_url(), Some("rtmp://live.twitch.tv/app"));
    assert_eq!(StreamingService::YouTube.default_server_url(), Some("rtmp://a.rtmp.youtube.com/live2"));
    assert_eq!(StreamingService::Custom.default_server_url(), None);
    let p = ReconnectPolicy::default();
    assert!(p.enabled);
    assert_eq!(p.max_attempts, 10);
    assert_eq!(p.initial_backoff_ms, 1000);
    assert_eq!(p.max_backoff_ms, 30_000);
}

#[test]
fn quality_presets_in_order() {
    let all = all_quality_presets();
    assert_eq!(all.len(), 6);
    assert_eq!(all[0], QualityPreset::UltraLow);
    assert_eq!(QualityPreset::FullHd.display_name(), "Full HD");
    assert_eq!(QualityPreset::Balanced.resolution(), Resolution::new(1280, 720));
    assert_eq!(QualityPreset::Low.frame_rate(), FrameRate::Fps30);
    assert_eq!(QualityPreset::Ultra.frame_rate(), FrameRate::Fps60);
}

#[test]
fn presets_need_a_verified_encoder_that_covers_them() {
    let caps = profile_with(vec![
        encoder(EncoderBackend::Nvenc, VideoCodec::H264, 1920, 1080, true),
        encoder(EncoderBackend::Amf, VideoCodec::H264, 3840, 2160, false),
    ]);
    assert!(QualityPreset::FullHd.is_supported_by(&caps));
    assert!(!QualityPreset::High.is_supported_by(&caps));
    assert!(!QualityPreset::Ultra.is_supported_by(&caps));
}

#[test]
fn recommended_bitrates_follow_the_table() {
    let r1080 = Resolution::new(1920, 1080);
    assert_eq!(recommended_bitrate_kbps(r1080, 30, VideoCodec::H264, StreamingService::YouTube), 6000);
    assert_eq!(recommended_bitrate_kbps(r1080, 60, VideoCodec::H264, StreamingService::YouTube), 9000);
    // Twitch caps ingest at 6000 kbps.
    assert_eq!(recommended_bitrate_kbps(r1080, 60, VideoCodec::H264, StreamingService::Twitch), 6000);
    assert_eq!(recommended_bitrate_kbps(r1080, 60, VideoCodec::Hevc, StreamingService::YouTube), 6750);
    assert_eq!(recommended_bitrate_kbps(r1080, 60, VideoCodec::Av1, StreamingService::YouTube), 5850);
    assert_eq!(recommended_bitrate_kbps(Resolution::new(640, 360), 30, VideoCodec::H264, StreamingService::Custom), 800);
    assert_eq!(recommended_bitrate_kbps(Resolution::new(3840, 2160), 60, VideoCodec::H264, StreamingService::Custom), 37_500);
}

#[test]
fn youtube_ladder_has_eight_rungs() {
    let v = youtube_presets(VideoCodec::H264);
    assert_eq!(v.len(), 8);
    assert_eq!(v[0].label, "YouTube 720p30");
    assert_eq!(v[0].bitrate_kbps, 3000);
    assert_eq!(v[3].label, "YouTube 1080p60");
    assert_eq!(v[3].bitrate_kbps, 9000);
    assert_eq!(v[7].label, "YouTube 4K60");
    assert_eq!(v[7].resolution, Resolution::new(3840, 2160));
}

#[test]
fn unsupported_service_presets_are_filtered_out() {
    let caps = profile_with(vec![encoder(EncoderBackend::Nvenc, VideoCodec::H264, 1920, 1080, true)]);
    let kept = filter_supported(youtube_presets(VideoCodec::H264), &caps);
    assert_eq!(kept.len(), 4);
    assert_eq!(kept[3].label, "YouTube 1080p60");
    let none = filter_supported(youtube_presets(VideoCodec::Hevc), &caps);
    assert_eq!(none.len(), 0);
}

#[test]
fn best_encoder_prefers_hardware_and_verified() {
    let caps = profile_with(vec![
        encoder(EncoderBackend::Software, VideoCodec::H264, 3840, 2160, true),
        encoder(EncoderBackend::Qsv, VideoCodec::H264, 1920, 1080, true),
        encoder(EncoderBackend::Nvenc, VideoCodec::H264, 3840, 2160, false),
    ]);
    let best = best_encoder_for(&caps, VideoCodec::H264, Resolution::new(1920, 1080)).unwrap();
    assert_eq!(best.backend, EncoderBackend::Qsv);
    let best4k = best_encoder_for(&caps, VideoCodec::H264, Resolution::new(3840, 2160)).unwrap();
    assert_eq!(best4k.backend, EncoderBackend::Software);
    assert!(best_encoder_for(&caps, VideoCodec::Av1, Resolution::new(1280, 720)).is_none());
}

#[test]
fn encoder_settings_for_streaming_and_recording() {
    let caps = profile_with(vec![encoder(EncoderBackend::Nvenc, VideoCodec::H264, 3840, 2160, true)]);
    let r = Resolution::new(1920, 1080);
    let live = build_encoder_settings(&caps, r, 60, VideoCodec::H264, Some(StreamingService::Twitch));
    assert_eq!(live.backend, EncoderBackend::Nvenc);
    assert_eq!(live.rate_control, RateControlMode::Cbr);
    assert_eq!(live.bitrate_kbps, Some(6000));
    assert_eq!(live.b_frames, 0);
    assert_eq!(live.keyframe_interval_ms, 2000);
    assert_eq!(live.preset, EncoderPreset::Balanced);
    assert_eq!(live.profile, EncoderProfile::High);
    let rec = build_encoder_settings(&caps, r, 60, VideoCodec::Hevc, None);
    assert_eq!(rec.backend, EncoderBackend::Software);
    assert_eq!(rec.rate_control, RateControlMode::Vbr);
    assert_eq!(rec.bitrate_kbps, Some(6750));
    assert_eq!(rec.b_frames, 2);
}
