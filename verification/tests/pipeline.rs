use brail::bitrate::{AdaptiveBitrateController, DegradationStep};
use brail::config::{ContainerFormat, EncoderBackend, EncoderPreset, EncoderProfile, EncoderSettings, RateControlMode, VideoCodec};
use brail::encoder::{
    backend_private_options, container_format_name, encoder_rate_plan, ffmpeg_encoder_name, frame_due,
    frame_interval_100ns, muxer_stream_index, muxer_timestamp, nv12_plane_sizes, time_base_to_100ns, EncodePacer,
    FrameAction,
};
use brail::error::BrailError;
use brail::frame::{EncodedPacket, StreamKind};
use brail::replay::{replay_clip_codec, RingBuffer};

fn settings(backend: EncoderBackend, rate_control: RateControlMode, preset: EncoderPreset) -> EncoderSettings {
    EncoderSettings {
        backend,
        codec: VideoCodec::H264,
        rate_control,
        bitrate_kbps: Some(6000),
        cqp_level: None,
        keyframe_interval_ms: 2000,
        preset,
        profile: EncoderProfile::High,
        b_frames: 0,
    }
}

fn packet(pts: i64, key: bool, stream: StreamKind) -> EncodedPacket {
    EncodedPacket { data: vec![pts as u8], pts_100ns: pts, dts_100ns: pts, is_keyframe: key, codec: VideoCodec::Hevc, stream }
}

const SEC: i64 = 10_000_000;

#[test]
fn encoder_names_per_backend_and_codec() {
    assert_eq!(ffmpeg_encoder_name(EncoderBackend::Nvenc, VideoCodec::H264), "h264_nvenc");
    assert_eq!(ffmpeg_encoder_name(EncoderBackend::Amf, VideoCodec::Hevc), "hevc_amf");
    assert_eq!(ffmpeg_encoder_name(EncoderBackend::Qsv, VideoCodec::Av1), "av1_qsv");
    assert_eq!(ffmpeg_encoder_name(EncoderBackend::Software, VideoCodec::Av1), "libaom-av1");
    assert_eq!(container_format_name(ContainerFormat::Mkv), "matroska");
    assert_eq!(container_format_name(ContainerFormat::WebM), "webm");
}

#[test]
fn private_options_per_backend() {
    let nv = backend_private_options(&settings(EncoderBackend::Nvenc, RateControlMode::Cbr, EncoderPreset::Quality));
    let nv: Vec<(&str, &str)> = nv.iter().map(|(k, v)| (*k, v.as_str())).collect();
    assert_eq!(nv, vec![("preset", "p6"), ("tune", "ll"), ("rc", "cbr")]);

    let mut cqp = settings(EncoderBackend::Nvenc, RateControlMode::Cqp, EncoderPreset::Fastest);
    cqp.cqp_level = Some(19);
    let v = backend_private_options(&cqp);
    let v: Vec<(&str, &str)> = v.iter().map(|(k, v)| (*k, v.as_str())).collect();
    assert_eq!(v, vec![("preset", "p1"), ("tune", "ll"), ("rc", "constqp"), ("qp", "19")]);

    let amf = backend_private_options(&settings(EncoderBackend::Amf, RateControlMode::Vbr, EncoderPreset::Fast));
    let amf: Vec<(&str, &str)> = amf.iter().map(|(k, v)| (*k, v.as_str())).collect();
    assert_eq!(amf, vec![("quality", "speed"), ("usage", "lowlatency")]);

    let sw = backend_private_options(&settings(EncoderBackend::Software, RateControlMode::Vbr, EncoderPreset::MaxQuality));
    let sw: Vec<(&str, &str)> = sw.iter().map(|(k, v)| (*k, v.as_str())).collect();
    assert_eq!(sw, vec![("preset", "veryslow"), ("tune", "zerolatency")]);
}

#[test]
fn rate_plans_follow_the_mode() {
    let cbr = encoder_rate_plan(&settings(EncoderBackend::Nvenc, RateControlMode::Cbr, EncoderPreset::Balanced), 60);
    assert_eq!(cbr.bit_rate, Some(6_000_000));
    assert_eq!(cbr.max_bit_rate, Some(6_000_000));
    assert_eq!(cbr.gop, 120);
    let vbr = encoder_rate_plan(&settings(EncoderBackend::Nvenc, RateControlMode::Vbr, EncoderPreset::Balanced), 30);
    assert_eq!(vbr.max_bit_rate, Some(9_000_000));
    assert_eq!(vbr.gop, 60);
    let mut none = settings(EncoderBackend::Qsv, RateControlMode::Cqp, EncoderPreset::Balanced);
    none.bitrate_kbps = None;
    let cqp = encoder_rate_plan(&none, 60);
    assert_eq!(cqp.bit_rate, None);
    assert_eq!(cqp.max_bit_rate, None);
}

#[test]
fn pacing_drops_frames_faster_than_the_target() {
    assert_eq!(frame_interval_100ns(60), 166_666);
    assert!(frame_due(166_666, 0, 166_666));
    assert!(!frame_due(100_000, 0, 166_666));
    assert!(frame_due(0, i64::MIN, 166_666));
    let mut pacer = EncodePacer::new(60);
    assert_eq!(pacer.on_frame(0), FrameAction::Encode);
    assert_eq!(pacer.on_frame(100_000), FrameAction::DropForPacing);
    assert_eq!(pacer.on_frame(166_666), FrameAction::Encode);
    pacer.on_packet();
    pacer.on_packet();
    pacer.on_lagged(3);
    pacer.set_paused(true);
    assert!(pacer.is_paused());
    assert_eq!(pacer.on_frame(10 * SEC), FrameAction::SkipPaused);
    let stats = pacer.stats();
    assert_eq!(stats.frames_encoded, 2);
    assert_eq!(stats.frames_dropped_encoder_backpressure, 4);
    pacer.set_paused(false);
    assert_eq!(pacer.on_frame(10 * SEC), FrameAction::Encode);
}

#[test]
fn first_frame_is_encoded_whatever_its_timestamp() {
    let mut pacer = EncodePacer::new(30);
    assert_eq!(pacer.on_frame(i64::MIN), FrameAction::Encode);
    assert_eq!(pacer.on_frame(i64::MIN + 1), FrameAction::DropForPacing);
}

#[test]
fn nv12_planes_must_fit() {
    assert_eq!(nv12_plane_sizes(1920 * 1080 * 3 / 2, 1920, 1080), Some((1920 * 1080, 1920 * 1080 / 2)));
    assert_eq!(nv12_plane_sizes(100, 1920, 1080), None);
}

#[test]
fn bitrate_ladder_steps_down_after_the_hold() {
    let mut c = AdaptiveBitrateController::new(6000, 0);
    assert_eq!(c.current_step(), DegradationStep::NoDegradation);
    assert_eq!(c.current_bitrate_kbps(), 6000);
    // Struggling, but within five seconds of the last change.
    assert_eq!(c.record_sample(1000, 3_000_000, 0), None);
    assert_eq!(c.record_sample(5000, 3_000_000, 0), Some(4500));
    assert_eq!(c.current_step(), DegradationStep::ReduceBitrate25Percent);
    assert_eq!(c.record_sample(6000, 3_000_000, 0), None);
    assert_eq!(c.record_sample(10_000, 3_000_000, 0), Some(3000));
    assert_eq!(c.record_sample(15_000, 1_000_000, 30), Some(3000));
    assert_eq!(c.current_step(), DegradationStep::HalveFrameRate);
}

#[test]
fn dropped_frames_count_as_struggling() {
    let mut c = AdaptiveBitrateController::new(6000, 0);
    assert_eq!(c.record_sample(5000, 10_000_000, 30), Some(4500));
}

#[test]
fn bitrate_ladder_climbs_back_slowly() {
    let mut c = AdaptiveBitrateController::new(6000, 0);
    assert_eq!(c.record_sample(5000, 1_000_000, 0), Some(4500));
    // Healthy upload from here on; recovery needs five good samples in the
    // window and twenty seconds since the last change.
    let mut t = 16_000;
    while t < 25_000 {
        assert_eq!(c.record_sample(t, 8_000_000, 0), None);
        t += 1000;
    }
    assert_eq!(c.record_sample(25_000, 8_000_000, 0), Some(6000));
    assert_eq!(c.current_step(), DegradationStep::NoDegradation);
    // At full quality there is nothing to climb to.
    assert_eq!(c.record_sample(50_000, 8_000_000, 0), None);
}

#[test]
fn ring_buffer_cuts_only_at_keyframes() {
    let mut rb = RingBuffer::new(2);
    rb.push(packet(0, true, StreamKind::Video));
    rb.push(packet(SEC, false, StreamKind::Video));
    rb.push(packet(SEC, false, StreamKind::Audio));
    rb.push(packet(2 * SEC, true, StreamKind::Video));
    rb.push(packet(3 * SEC, false, StreamKind::Video));
    // Cutoff is 1 s: the latest keyframe at or before it is the first
    // packet, so nothing can be dropped yet.
    assert_eq!(rb.snapshot().len(), 5);
    rb.push(packet(4 * SEC + 1, false, StreamKind::Video));
    // Cutoff is just past 2 s: the buffer now starts on the 2 s keyframe.
    let snap = rb.snapshot();
    assert_eq!(snap.len(), 3);
    assert_eq!(snap[0].pts_100ns, 2 * SEC);
    assert!(snap[0].is_keyframe);
    assert_eq!(rb.buffered_duration_100ns(), (2 * SEC + 1) as i128);
}

#[test]
fn empty_buffer_reports_zero_duration() {
    let rb = RingBuffer::new(30);
    assert_eq!(rb.buffered_duration_100ns(), 0);
    assert_eq!(rb.snapshot().len(), 0);
}

#[test]
fn replay_clip_needs_video() {
    match replay_clip_codec(&Vec::new()) {
        Err(BrailError::Internal(m)) => assert_eq!(m, "replay buffer is empty (nothing to save yet)"),
        _ => panic!("expected an internal error"),
    }
    match replay_clip_codec(&vec![packet(0, true, StreamKind::Audio)]) {
        Err(BrailError::Internal(m)) => assert_eq!(m, "replay buffer has no video packets"),
        _ => panic!("expected an internal error"),
    }
    let clip = vec![packet(0, true, StreamKind::Audio), packet(1, true, StreamKind::Video)];
    assert!(matches!(replay_clip_codec(&clip), Ok(VideoCodec::Hevc)));
}

#[test]
fn timestamps_convert_rounding_toward_zero() {
    assert_eq!(time_base_to_100ns(60, 60), 10_000_000);
    assert_eq!(time_base_to_100ns(1, 3), 3_333_333);
    assert_eq!(time_base_to_100ns(-1, 3), -3_333_333);
    assert_eq!(muxer_timestamp(12_345), 12);
    assert_eq!(muxer_timestamp(-12_345), -12);
    assert_eq!(muxer_stream_index(StreamKind::Video, 0, None).unwrap(), 0);
    assert_eq!(muxer_stream_index(StreamKind::Audio, 0, Some(1)).unwrap(), 1);
    match muxer_stream_index(StreamKind::Audio, 0, None) {
        Err(BrailError::Internal(m)) => assert_eq!(m, "audio packet with no audio stream configured"),
        _ => panic!("expected an error"),
    }
}
