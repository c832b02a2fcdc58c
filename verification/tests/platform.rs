use brail::audio::{
    audio_packet, channel_layout, is_silent_packet, mixable_len, mixer_lane, samples_per_channel, ChannelLayout, MixerLane,
    ResamplerInput, WaveFormat,
};
use brail::capture::{
    captured_frame_size, crop_box, cursor_position, cursor_showing, even_down, needs_compositing, overlay_position,
    should_draw_click_highlight, window_source, CaptureRegion, CaptureSource,
};
use brail::config::{Resolution, VideoCodec};
use brail::error::BrailError;
use brail::frame::{AudioSource, StreamKind};
use brail::monitor::{filetime_to_u64, working_set_mb_x100, CpuSampler};
use brail::recovery::{recovery_outcome, RecoveryManager, RecoveryOutcome};
use brail::screenshot::ScreenshotCapture;
use brail::settings::{OverlayAnchor, ScreenshotFormat, ScreenshotSettings};
use brail::storage::{
    estimated_seconds_remaining, has_minimum_headroom, output_file_name, ConfigStage, ConfigStore,
};
use brail::unicode::{decode_utf16_lossy, utf16_of};
use brail::vault::{credential_target_name, CredentialVault};

#[test]
fn utf16_decoding_replaces_lone_surrogates() {
    assert_eq!(decode_utf16_lossy(&[0x48, 0x69]), "Hi");
    assert_eq!(decode_utf16_lossy(&[0xD83D, 0xDE00]), "\u{1F600}");
    assert_eq!(decode_utf16_lossy(&[0xD83D, 0x41]), "\u{FFFD}A");
    assert_eq!(decode_utf16_lossy(&[0xDE00]), "\u{FFFD}");
    let s = "stream key \u{00E9}\u{1F3AE}";
    assert_eq!(decode_utf16_lossy(&utf16_of(s)), s);
    assert_eq!(utf16_of(s), s.encode_utf16().collect::<Vec<u16>>());
}

#[test]
fn credential_targets_are_named_by_profile_id() {
    let id: [u8; 16] = [0x67, 0xe5, 0x50, 0x44, 0x10, 0xb1, 0x42, 0x6f, 0x92, 0x47, 0xbb, 0x68, 0x0e, 0x5f, 0xe0, 0xc8];
    assert_eq!(credential_target_name(&id), "BrailRecorder_StreamKey_67e55044-10b1-426f-9247-bb680e5fe0c8");
    assert_eq!(CredentialVault::target_name(&[0u8; 16]), "BrailRecorder_StreamKey_00000000-0000-0000-0000-000000000000");
}

#[test]
fn stored_keys_read_back() {
    let key = "live_1234_abcd\u{1F511}";
    let blob = CredentialVault::key_blob(key);
    assert_eq!(blob.len(), 2 * key.encode_utf16().count());
    assert_eq!(&blob[..4], &[0x6C, 0x00, 0x69, 0x00]);
    assert_eq!(CredentialVault::key_from_blob(&blob), key);
    // An odd trailing byte is ignored.
    let mut odd = blob.clone();
    odd.push(0x41);
    assert_eq!(CredentialVault::key_from_blob(&odd), key);
    match CredentialVault::storage_error("CredWriteW", "access denied") {
        BrailError::SecureStorageError(m) => assert_eq!(m, "CredWriteW failed: access denied"),
        _ => panic!("wrong error"),
    }
}

#[test]
fn headroom_and_remaining_time() {
    // 6000 kbps writes 750 kB/s: a minute needs 45 MB.
    assert!(has_minimum_headroom(45_000_000, 6000));
    assert!(!has_minimum_headroom(44_999_999, 6000));
    assert!(has_minimum_headroom(0, 0));
    assert_eq!(estimated_seconds_remaining(45_000_000, 6000), Some(60));
    assert_eq!(estimated_seconds_remaining(44_999_999, 6000), Some(59));
    assert_eq!(estimated_seconds_remaining(1, 0), None);
}

#[test]
fn output_names_count_up_then_overflow() {
    assert_eq!(output_file_name("Recording", "2024-01-02_03-04-05", "mkv", 0), "Recording_2024-01-02_03-04-05.mkv");
    assert_eq!(output_file_name("Recording", "2024-01-02_03-04-05", "mkv", 7), "Recording_2024-01-02_03-04-05_7.mkv");
    assert_eq!(output_file_name("Replay", "t", "mkv", 999), "Replay_t_999.mkv");
    assert_eq!(output_file_name("Replay", "t", "mkv", 1000), "Replay_t_overflow.mkv");
}

#[test]
fn config_files_sit_side_by_side() {
    let store = ConfigStore::new("/home/u/.config/BrailRecorder");
    assert_eq!(store.path(), "/home/u/.config/BrailRecorder/config.json");
    assert_eq!(store.temp_path(), "/home/u/.config/BrailRecorder/config.json.tmp");
    assert_eq!(store.backup_path(), "/home/u/.config/BrailRecorder/config.json.corrupt");
    assert_eq!(ConfigStore::new("/etc/brail/").path(), "/etc/brail/config.json");
    match ConfigStore::failure(ConfigStage::Commit, "rename failed") {
        BrailError::Internal(m) => assert_eq!(m, "failed to commit config: rename failed"),
        _ => panic!("wrong error"),
    }
}

#[test]
fn recovery_lock_and_decision() {
    let m = RecoveryManager::new("/cfg");
    assert_eq!(m.lock_path(), "/cfg/recording.lock");
    assert_eq!(RecoveryManager::new("/cfg/").lock_path(), "/cfg/recording.lock");
    assert_eq!(RecoveryManager::new("").lock_path(), "recording.lock");
    assert_eq!(recovery_outcome(false, true), RecoveryOutcome::NothingToRecover);
    assert_eq!(recovery_outcome(true, true), RecoveryOutcome::Recover);
    assert_eq!(recovery_outcome(true, false), RecoveryOutcome::ClearStaleLock);
}

#[test]
fn regions_clamp_to_even_sizes_inside_the_source() {
    let src = Resolution::new(1920, 1080);
    let r = CaptureRegion { x: 1800, y: 1000, width: 500, height: 500 };
    assert_eq!(r.clamped_to(src), Some(CaptureRegion { x: 1800, y: 1000, width: 120, height: 80 }));
    let odd = CaptureRegion { x: 0, y: 0, width: 101, height: 51 };
    assert_eq!(odd.clamped_to(src), Some(CaptureRegion { x: 0, y: 0, width: 100, height: 50 }));
    assert_eq!(CaptureRegion { x: 1920, y: 0, width: 10, height: 10 }.clamped_to(src), None);
    assert_eq!(CaptureRegion { x: 0, y: 0, width: 0, height: 10 }.clamped_to(src), None);
    assert_eq!(CaptureRegion { x: 1919, y: 0, width: 10, height: 10 }.clamped_to(src), None);
    assert_eq!(CaptureRegion { x: 0, y: 0, width: 10, height: 1 }.clamped_to(src), None);
    assert_eq!(crop_box(CaptureRegion { x: 10, y: 20, width: 100, height: 50 }), (10, 20, 110, 70));
    assert_eq!(even_down(33), 32);
}

#[test]
fn overlays_are_placed_by_anchor() {
    let out = Resolution::new(1920, 1080);
    assert_eq!(overlay_position(OverlayAnchor::TopLeft, out, 384, 216, 38, 22), (38, 22));
    assert_eq!(overlay_position(OverlayAnchor::TopRight, out, 384, 216, 38, 22), (1498, 22));
    assert_eq!(overlay_position(OverlayAnchor::BottomLeft, out, 384, 216, 38, 22), (38, 842));
    assert_eq!(overlay_position(OverlayAnchor::BottomRight, out, 384, 216, 38, 22), (1498, 842));
    assert!(!needs_compositing(false, 0));
    assert!(needs_compositing(true, 0));
    assert!(needs_compositing(false, 2));
}

#[test]
fn windows_offered_for_capture() {
    let title: Vec<u16> = "Game".encode_utf16().collect();
    match window_source(42, true, 0, &title) {
        Some(CaptureSource::Window { hwnd_id, title }) => {
            assert_eq!(hwnd_id, 42);
            assert_eq!(title, "Game");
        },
        _ => panic!("expected a window"),
    }
    assert!(window_source(42, false, 0, &title).is_none());
    assert!(window_source(42, true, 0x80, &title).is_none());
    assert!(window_source(42, true, 0, &[]).is_none());
}

#[test]
fn cursor_and_frame_geometry() {
    assert!(cursor_showing(1));
    assert!(!cursor_showing(0));
    assert!(!cursor_showing(2));
    assert_eq!(cursor_position(2000, 500, 1920, 0), (80, 500));
    assert!(should_draw_click_highlight(i16::MIN, 0));
    assert!(!should_draw_click_highlight(1, 0));
    assert_eq!(captured_frame_size(Some((1280, 720)), (1920, 1080)), Resolution::new(1280, 720));
    assert_eq!(captured_frame_size(None, (1920, 1080)), Resolution::new(1920, 1080));
}

#[test]
fn screenshot_rows_and_channels() {
    // Two rows of one pixel with four bytes of padding each.
    let mapped = [1, 2, 3, 4, 0, 0, 0, 0, 5, 6, 7, 8, 0, 0, 0, 0];
    let packed = ScreenshotCapture::packed_bgra(&mapped, 8, 1, 2);
    assert_eq!(packed, vec![1, 2, 3, 4, 5, 6, 7, 8]);
    assert_eq!(ScreenshotCapture::bgra_to_rgba(&[1, 2, 3, 4, 5, 6, 7, 8, 9]), vec![3, 2, 1, 4, 7, 6, 5, 8]);
}

#[test]
fn screenshots_encode_in_the_chosen_format() {
    let bgra = vec![0u8, 0, 255, 255, 0, 255, 0, 255, 255, 0, 0, 255, 255, 255, 255, 255];
    let png = ScreenshotSettings { format: ScreenshotFormat::Png, jpeg_quality: 90, directory: String::new() };
    let bytes = ScreenshotCapture::encode_image(&bgra, 2, 2, &png, "shot.png").expect("png");
    assert_eq!(&bytes[..8], &[0x89, b'P', b'N', b'G', 0x0D, 0x0A, 0x1A, 0x0A]);
    let jpeg = ScreenshotSettings { format: ScreenshotFormat::Jpeg, jpeg_quality: 90, directory: String::new() };
    let bytes = ScreenshotCapture::encode_image(&bgra, 2, 2, &jpeg, "shot.jpg").expect("jpeg");
    assert_eq!(&bytes[..2], &[0xFF, 0xD8]);
    match ScreenshotCapture::encode_image(&bgra, 3, 3, &png, "shot.png") {
        Err(BrailError::Internal(m)) => assert_eq!(m, "pixel buffer did not match the stated dimensions"),
        _ => panic!("short buffer must be refused"),
    }
    match ScreenshotCapture::encode_image(&[], 0, 0, &jpeg, "shot.jpg") {
        Err(BrailError::OutputFileError(p, _)) => assert_eq!(p, "shot.jpg"),
        _ => panic!("an empty JPEG must be refused"),
    }
    match ScreenshotCapture::encode_image(&[], 0, 4, &png, "shot.png") {
        Err(BrailError::OutputFileError(p, _)) => assert_eq!(p, "shot.png"),
        _ => panic!("an empty PNG must be refused"),
    }
    let one = vec![10u8, 20, 30, 40];
    assert!(ScreenshotCapture::encode_image(&one, 1, 1, &png, "one.png").is_ok());
    assert!(ScreenshotCapture::encode_image(&one, 1, 1, &jpeg, "one.jpg").is_ok());
}

#[test]
fn audio_bookkeeping() {
    let f = WaveFormat { sample_rate: 48_000, channels: 2, bits_per_sample: 32 };
    assert_eq!(f.bytes_per_frame(), 8);
    assert_eq!(f.packet_byte_len(480), 3840);
    assert!(is_silent_packet(2));
    assert!(is_silent_packet(3));
    assert!(!is_silent_packet(1));
    assert_eq!(mixer_lane(AudioSource::Microphone), MixerLane::Microphone);
    assert_eq!(mixer_lane(AudioSource::Mixed), MixerLane::Desktop);
    assert_eq!(mixable_len(10, 4), 4);
    assert_eq!(channel_layout(1), ChannelLayout::Mono);
    assert_eq!(channel_layout(6), ChannelLayout::Stereo);
    let r = ResamplerInput { input_rate: 44_100, input_channels: 2 };
    assert!(r.matches(44_100, 2));
    assert!(!r.matches(48_000, 2));
    assert_eq!(samples_per_channel(3840, 2), 480);
    let p = audio_packet(vec![1, 2], 99);
    assert_eq!(p.pts_100ns, 99);
    assert_eq!(p.dts_100ns, 99);
    assert!(p.is_keyframe);
    assert_eq!(p.stream, StreamKind::Audio);
    assert_eq!(p.codec, VideoCodec::H264);
}

#[test]
fn process_counters_become_rates() {
    assert_eq!(filetime_to_u64(1, 2), (1u64 << 32) + 2);
    assert_eq!(working_set_mb_x100(1024 * 1024), 100);
    assert_eq!(working_set_mb_x100(1536 * 1024), 150);
    let mut s = CpuSampler::new(8);
    // One core busy for a whole second on eight cores: 12.5%.
    assert_eq!(s.sample(5_000_000, 5_000_000, 10_000_000), 1250);
    // No new CPU time.
    assert_eq!(s.sample(5_000_000, 5_000_000, 10_000_000), 0);
    // Clamped at 100%.
    assert_eq!(s.sample(100_000_000, 100_000_000, 10_000_000), 10_000);
    let mut none = CpuSampler::new(0);
    assert_eq!(none.sample(1, 0, 10_000_000), 10_000);
}

#[test]
fn error_messages_name_the_failure() {
    assert_eq!(BrailError::CaptureSourceLost.message(), "no capturable source found (monitor/window may have disconnected)");
    assert_eq!(BrailError::AudioDeviceError("gone".to_string()).message(), "audio device error: gone");
    assert_eq!(
        BrailError::OutputFileError("a.mkv".to_string(), "denied".to_string()).message(),
        "could not open output file at a.mkv: denied"
    );
    assert_eq!(BrailError::InsufficientBandwidth.message(), "insufficient upload bandwidth for the selected quality preset");
}
