use brail::adaptive::{sample_from_stats, AdaptiveAction, AdaptiveEngine, AdaptiveSample, Severity};
use brail::settings::AdaptiveMode;
use brail::stats::{CaptureStats, EncodeStats, ResourceStats, StreamStats};
use brail::tuner::{SelfTuner, TuningAction};

fn resources(ram_mb_x100: u64, cpu_x100: u64) -> ResourceStats {
    ResourceStats { process_ram_mb_x100: ram_mb_x100, process_cpu_percent_x100: cpu_x100, ..ResourceStats::default() }
}

fn calm_sample(cpu_x100: u64) -> AdaptiveSample {
    AdaptiveSample {
        resources: resources(50_000, cpu_x100),
        capture_fps_x100: 6000,
        target_fps_x100: 6000,
        encoder_queue_depth: 0,
        dropped_frames_delta: 0,
        disk_write_mb_per_sec_x100: 0,
        required_disk_mb_per_sec_x100: 0,
        upload_kbps_x100: None,
        target_bitrate_kbps_x100: None,
    }
}

#[test]
fn user_labels_name_each_action() {
    assert_eq!(AdaptiveAction::Hold.user_label(), "No change needed");
    assert_eq!(AdaptiveAction::SwitchToHardwareEncoder.user_label(), "Switch to hardware encoding");
    assert_eq!(AdaptiveAction::DisableInstantReplay.user_label(), "Turn off Instant Replay");
}

#[test]
fn samples_are_built_from_stats() {
    let mut res = resources(1000, 2000);
    res.disk_write_mb_per_sec_x100 = Some(4500);
    let capture = CaptureStats { capture_fps_x100: 5950, frames_captured: 10, frames_dropped_capture: 0 };
    let encode = EncodeStats { frames_dropped_encoder_backpressure: 3, encoder_queue_depth: 2, ..EncodeStats::default() };
    let mut stream = StreamStats::default();
    stream.upload_bitrate_kbps_x100 = 550_000;
    stream.target_bitrate_kbps_x100 = 600_000;
    let s = sample_from_stats(res, capture, encode, Some(&stream), 60, 1200);
    assert_eq!(s.target_fps_x100, 6000);
    assert_eq!(s.capture_fps_x100, 5950);
    assert_eq!(s.dropped_frames_delta, 3);
    assert_eq!(s.encoder_queue_depth, 2);
    assert_eq!(s.disk_write_mb_per_sec_x100, 4500);
    assert_eq!(s.upload_kbps_x100, Some(550_000));
    assert_eq!(s.target_bitrate_kbps_x100, Some(600_000));
    let no_stream = sample_from_stats(resources(0, 0), capture, encode, None, 30, 0);
    assert_eq!(no_stream.disk_write_mb_per_sec_x100, 0);
    assert_eq!(no_stream.upload_kbps_x100, None);
}

#[test]
fn a_short_spike_is_ignored() {
    let mut engine = AdaptiveEngine::new(AdaptiveMode::Balanced, true, 16_384);
    for _ in 0..11 {
        assert!(engine.observe(calm_sample(9_000)).is_none());
    }
}

#[test]
fn sustained_cpu_pressure_is_reported_once() {
    let mut engine = AdaptiveEngine::new(AdaptiveMode::Balanced, true, 16_384);
    for _ in 0..11 {
        assert!(engine.observe(calm_sample(5_000)).is_none());
    }
    let rec = engine.observe(calm_sample(5_000)).expect("a full window of pressure");
    assert_eq!(rec.action, AdaptiveAction::DisablePreview);
    assert_eq!(rec.severity, Severity::Info);
    assert_eq!(rec.reason, "Brail has averaged 50% CPU, above the 35 target for Balanced mode.");
    // The same condition is not reported again.
    assert!(engine.observe(calm_sample(5_000)).is_none());
    assert!(engine.observe(calm_sample(5_000)).is_none());
}

#[test]
fn quality_mode_tolerates_more_cpu() {
    let mut engine = AdaptiveEngine::new(AdaptiveMode::Quality, true, 16_384);
    for _ in 0..20 {
        assert!(engine.observe(calm_sample(5_000)).is_none());
    }
}

#[test]
fn custom_mode_never_auto_applies_and_has_no_cpu_budget() {
    let mut engine = AdaptiveEngine::new(AdaptiveMode::Custom, true, 16_384);
    assert!(!engine.should_auto_apply());
    for _ in 0..20 {
        assert!(engine.observe(calm_sample(9_900)).is_none());
    }
    let other = AdaptiveEngine::new(AdaptiveMode::Balanced, true, 16_384);
    assert!(other.should_auto_apply());
    let off = AdaptiveEngine::new(AdaptiveMode::Balanced, false, 16_384);
    assert!(!off.should_auto_apply());
}

#[test]
fn memory_exhaustion_bypasses_the_window() {
    let mut engine = AdaptiveEngine::new(AdaptiveMode::Balanced, true, 1000);
    let mut s = calm_sample(0);
    s.resources.process_ram_mb_x100 = 95_000; // 950 MB of 1000 MB
    let rec = engine.observe(s).expect("critical memory is immediate");
    assert_eq!(rec.action, AdaptiveAction::DisableInstantReplay);
    assert_eq!(rec.severity, Severity::Critical);
    assert_eq!(rec.reason, "Brail is using 950 MB of memory, close to this system's limit.");
}

#[test]
fn software_encoding_with_idle_hardware_is_flagged_first() {
    let mut engine = AdaptiveEngine::new(AdaptiveMode::Balanced, true, 16_384);
    engine.set_encoder_state(true, true);
    let mut last = None;
    for _ in 0..12 {
        last = engine.observe(calm_sample(4_050));
    }
    let rec = last.expect("sustained software encoding");
    assert_eq!(rec.action, AdaptiveAction::SwitchToHardwareEncoder);
    assert_eq!(rec.reason, "CPU encoding is using 40% CPU. A hardware encoder is available and would use far less.");
}

#[test]
fn low_capture_rate_lowers_resolution_or_frame_rate() {
    let mut s = calm_sample(0);
    s.capture_fps_x100 = 4000;
    let mut engine = AdaptiveEngine::new(AdaptiveMode::Balanced, true, 16_384);
    let mut last = None;
    for _ in 0..12 {
        last = engine.observe(s);
    }
    let rec = last.unwrap();
    assert_eq!(rec.action, AdaptiveAction::LowerResolution);
    assert_eq!(rec.reason, "Capturing 40 FPS against a 60 FPS target for the last 12 seconds.");
    let mut q = AdaptiveEngine::new(AdaptiveMode::Quality, true, 16_384);
    let mut last = None;
    for _ in 0..12 {
        last = q.observe(s);
    }
    assert_eq!(last.unwrap().action, AdaptiveAction::LowerFrameRate);
}

#[test]
fn slow_upload_lowers_bitrate() {
    let mut s = calm_sample(0);
    s.upload_kbps_x100 = Some(300_000);
    s.target_bitrate_kbps_x100 = Some(600_000);
    let mut engine = AdaptiveEngine::new(AdaptiveMode::Streaming, true, 16_384);
    let mut last = None;
    for _ in 0..12 {
        last = engine.observe(s);
    }
    let rec = last.unwrap();
    assert_eq!(rec.action, AdaptiveAction::LowerBitrate);
    assert_eq!(rec.reason, "Upload has averaged 3.0 Mbps against a 6.0 Mbps target.");
}

#[test]
fn slow_disk_lowers_bitrate() {
    let mut s = calm_sample(0);
    s.disk_write_mb_per_sec_x100 = 500;
    s.required_disk_mb_per_sec_x100 = 1000;
    let mut engine = AdaptiveEngine::new(AdaptiveMode::Balanced, true, 16_384);
    let mut last = None;
    for _ in 0..12 {
        last = engine.observe(s);
    }
    let rec = last.unwrap();
    assert_eq!(rec.action, AdaptiveAction::LowerBitrate);
    assert_eq!(rec.reason, "This drive is sustaining 5 MB/s but the current settings need about 10 MB/s.");
}

#[test]
fn a_backed_up_dropping_encoder_gets_a_faster_preset() {
    let mut s = calm_sample(0);
    s.encoder_queue_depth = 6;
    s.dropped_frames_delta = 1;
    let mut engine = AdaptiveEngine::new(AdaptiveMode::Balanced, true, 16_384);
    let mut last = None;
    for _ in 0..12 {
        last = engine.observe(s);
    }
    let rec = last.unwrap();
    assert_eq!(rec.action, AdaptiveAction::LowerEncoderPreset);
    assert_eq!(rec.reason, "The encoder has been running behind and dropping frames.");
}

#[test]
fn a_mode_change_restarts_the_window() {
    let mut engine = AdaptiveEngine::new(AdaptiveMode::Balanced, true, 16_384);
    for _ in 0..11 {
        assert!(engine.observe(calm_sample(5_000)).is_none());
    }
    engine.set_mode(AdaptiveMode::LowEnd);
    for _ in 0..11 {
        assert!(engine.observe(calm_sample(5_000)).is_none());
    }
    let rec = engine.observe(calm_sample(5_000)).unwrap();
    assert_eq!(rec.reason, "Brail has averaged 50% CPU, above the 15 target for Low-End mode.");
}

#[test]
fn tuner_waits_for_fifteen_samples() {
    let mut tuner = SelfTuner::new(1000);
    for _ in 0..14 {
        assert_eq!(tuner.record_sample(resources(0, 9_500)), TuningAction::NoAction);
    }
    assert_eq!(tuner.record_sample(resources(0, 9_500)), TuningAction::SuggestLowerEncoderPreset);
}

#[test]
fn tuner_warns_on_critical_memory_at_once() {
    let mut tuner = SelfTuner::new(1000);
    assert_eq!(tuner.record_sample(resources(96_000, 0)), TuningAction::WarnRamCritical);
}

#[test]
fn tuner_prefers_memory_then_cpu_then_gpu() {
    let mut tuner = SelfTuner::new(1000);
    let mut last = TuningAction::NoAction;
    for _ in 0..15 {
        last = tuner.record_sample(resources(90_000, 9_500));
    }
    assert_eq!(last, TuningAction::SuggestDisableInstantReplay);

    let mut gpu = SelfTuner::new(1000);
    let mut s = resources(0, 0);
    s.gpu_video_encode_percent_x100 = Some(9_600);
    let mut last = TuningAction::NoAction;
    for _ in 0..15 {
        last = gpu.record_sample(s);
    }
    assert_eq!(last, TuningAction::SuggestLowerResolution);
}

#[test]
fn one_calm_sample_holds_back_suggestions() {
    let mut tuner = SelfTuner::new(1000);
    for _ in 0..14 {
        tuner.record_sample(resources(0, 9_500));
    }
    assert_eq!(tuner.record_sample(resources(0, 1_000)), TuningAction::NoAction);
    for _ in 0..14 {
        assert_eq!(tuner.record_sample(resources(0, 9_500)), TuningAction::NoAction);
    }
    assert_eq!(tuner.record_sample(resources(0, 9_500)), TuningAction::SuggestLowerEncoderPreset);
}

#[test]
fn unmeasured_gpu_never_counts_as_busy() {
    let mut tuner = SelfTuner::new(1000);
    for _ in 0..30 {
        assert_eq!(tuner.record_sample(resources(0, 0)), TuningAction::NoAction);
    }
}
