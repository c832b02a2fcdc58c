//! Encoder configuration tables: codec names, per-backend tuning options,
//! rate-control arithmetic, container names and frame pacing.

use vstd::prelude::*;

use crate::config::{ContainerFormat, EncoderBackend, EncoderPreset, EncoderSettings, RateControlMode, VideoCodec};
use crate::error::{is_internal_error, BrailError};
use crate::frame::StreamKind;
use crate::stats::EncodeStats;
use crate::text::{decimal, push_decimal};

verus! {

/// The FFmpeg encoder implementing a backend/codec pair.
pub open spec fn encoder_name(backend: EncoderBackend, codec: VideoCodec) -> Seq<char> {
    match (backend, codec) {
        (EncoderBackend::Nvenc, VideoCodec::H264) => "h264_nvenc"@,
        (EncoderBackend::Nvenc, VideoCodec::Hevc) => "hevc_nvenc"@,
        (EncoderBackend::Nvenc, VideoCodec::Av1) => "av1_nvenc"@,
        (EncoderBackend::Amf, VideoCodec::H264) => "h264_amf"@,
        (EncoderBackend::Amf, VideoCodec::Hevc) => "hevc_amf"@,
        (EncoderBackend::Amf, VideoCodec::Av1) => "av1_amf"@,
        (EncoderBackend::Qsv, VideoCodec::H264) => "h264_qsv"@,
        (EncoderBackend::Qsv, VideoCodec::Hevc) => "hevc_qsv"@,
        (EncoderBackend::Qsv, VideoCodec::Av1) => "av1_qsv"@,
        (EncoderBackend::Software, VideoCodec::H264) => "libx264"@,
        (EncoderBackend::Software, VideoCodec::Hevc) => "libx265"@,
        (EncoderBackend::Software, VideoCodec::Av1) => "libaom-av1"@,
    }
}

/// Maps a backend/codec pair to the exact FFmpeg encoder name.
pub fn ffmpeg_encoder_name(backend: EncoderBackend, codec: VideoCodec) -> (s: &'static str)
    ensures
        s@ == encoder_name(backend, codec),
{
    match (backend, codec) {
        (EncoderBackend::Nvenc, VideoCodec::H264) => "h264_nvenc",
        (EncoderBackend::Nvenc, VideoCodec::Hevc) => "hevc_nvenc",
        (EncoderBackend::Nvenc, VideoCodec::Av1) => "av1_nvenc",
        (EncoderBackend::Amf, VideoCodec::H264) => "h264_amf",
        (EncoderBackend::Amf, VideoCodec::Hevc) => "hevc_amf",
        (EncoderBackend::Amf, VideoCodec::Av1) => "av1_amf",
        (EncoderBackend::Qsv, VideoCodec::H264) => "h264_qsv",
        (EncoderBackend::Qsv, VideoCodec::Hevc) => "hevc_qsv",
        (EncoderBackend::Qsv, VideoCodec::Av1) => "av1_qsv",
        (EncoderBackend::Software, VideoCodec::H264) => "libx264",
        (EncoderBackend::Software, VideoCodec::Hevc) => "libx265",
        (EncoderBackend::Software, VideoCodec::Av1) => "libaom-av1",
    }
}

/// NVENC's preset for each speed/quality setting.
pub open spec fn nvenc_preset(p: EncoderPreset) -> Seq<char> {
    match p {
        EncoderPreset::Fastest => "p1"@,
        EncoderPreset::Fast => "p3"@,
        EncoderPreset::Balanced => "p4"@,
        EncoderPreset::Quality => "p6"@,
        EncoderPreset::MaxQuality => "p7"@,
    }
}

/// AMF's quality setting.
pub open spec fn amf_quality(p: EncoderPreset) -> Seq<char> {
    match p {
        EncoderPreset::Fastest | EncoderPreset::Fast => "speed"@,
        EncoderPreset::Balanced => "balanced"@,
        EncoderPreset::Quality | EncoderPreset::MaxQuality => "quality"@,
    }
}

/// Quick Sync's preset.
pub open spec fn qsv_preset(p: EncoderPreset) -> Seq<char> {
    match p {
        EncoderPreset::Fastest => "veryfast"@,
        EncoderPreset::Fast => "fast"@,
        EncoderPreset::Balanced => "medium"@,
        EncoderPreset::Quality => "slow"@,
        EncoderPreset::MaxQuality => "veryslow"@,
    }
}

/// The x264/x265 preset.
pub open spec fn software_preset(p: EncoderPreset) -> Seq<char> {
    match p {
        EncoderPreset::Fastest => "ultrafast"@,
        EncoderPreset::Fast => "veryfast"@,
        EncoderPreset::Balanced => "medium"@,
        EncoderPreset::Quality => "slow"@,
        EncoderPreset::MaxQuality => "veryslow"@,
    }
}

/// The quantizer used in constant-QP mode.
pub open spec fn cqp_qp(s: EncoderSettings) -> nat {
    match s.cqp_level {
        Some(q) => q as nat,
        None => 23,
    }
}

/// The backend-private options (name, value) an encoder is opened with,
/// in the order they are set.
pub open spec fn private_options(s: EncoderSettings) -> Seq<(Seq<char>, Seq<char>)> {
    match s.backend {
        EncoderBackend::Nvenc => {
            let base = seq![("preset"@, nvenc_preset(s.preset)), ("tune"@, "ll"@)];
            if s.rate_control == RateControlMode::Cqp {
                base + seq![("rc"@, "constqp"@), ("qp"@, decimal(cqp_qp(s)))]
            } else {
                base + seq![("rc"@, "cbr"@)]
            }
        },
        EncoderBackend::Amf => seq![("quality"@, amf_quality(s.preset)), ("usage"@, "lowlatency"@)],
        EncoderBackend::Qsv => seq![("preset"@, qsv_preset(s.preset))],
        EncoderBackend::Software => seq![("preset"@, software_preset(s.preset)), ("tune"@, "zerolatency"@)],
    }
}

/// The view of an option list.
pub open spec fn options_view(v: Seq<(&'static str, String)>) -> Seq<(Seq<char>, Seq<char>)> {
    v.map_values(|o: (&'static str, String)| (o.0@, o.1@))
}

fn opt(v: &mut Vec<(&'static str, String)>, name: &'static str, value: &str)
    ensures
        final(v)@ == old(v)@.push((name, final(v)@.last().1)),
        final(v)@.last().1@ == value@,
{
    v.push((name, String::from_str(value)));
}

/// The per-backend tuning options, as FFmpeg names them.
pub fn backend_private_options(settings: &EncoderSettings) -> (v: Vec<(&'static str, String)>)
    ensures
        options_view(v@) == private_options(*settings),
{
    let mut v: Vec<(&'static str, String)> = Vec::new();
    match settings.backend {
        EncoderBackend::Nvenc => {
            let preset = match settings.preset {
                EncoderPreset::Fastest => "p1",
                EncoderPreset::Fast => "p3",
                EncoderPreset::Balanced => "p4",
                EncoderPreset::Quality => "p6",
                EncoderPreset::MaxQuality => "p7",
            };
            opt(&mut v, "preset", preset);
            opt(&mut v, "tune", "ll");
            if settings.rate_control == RateControlMode::Cqp {
                opt(&mut v, "rc", "constqp");
                let q: u8 = match settings.cqp_level {
                    Some(q) => q,
                    None => 23,
                };
                let mut qs = String::new();
                push_decimal(&mut qs, q as u64);
                v.push(("qp", qs));
            } else {
                opt(&mut v, "rc", "cbr");
            }
        },
        EncoderBackend::Amf => {
            let quality = match settings.preset {
                EncoderPreset::Fastest | EncoderPreset::Fast => "speed",
                EncoderPreset::Balanced => "balanced",
                EncoderPreset::Quality | EncoderPreset::MaxQuality => "quality",
            };
            opt(&mut v, "quality", quality);
            opt(&mut v, "usage", "lowlatency");
        },
        EncoderBackend::Qsv => {
            let preset = match settings.preset {
                EncoderPreset::Fastest => "veryfast",
                EncoderPreset::Fast => "fast",
                EncoderPreset::Balanced => "medium",
                EncoderPreset::Quality => "slow",
                EncoderPreset::MaxQuality => "veryslow",
            };
            opt(&mut v, "preset", preset);
        },
        EncoderBackend::Software => {
            let preset = match settings.preset {
                EncoderPreset::Fastest => "ultrafast",
                EncoderPreset::Fast => "veryfast",
                EncoderPreset::Balanced => "medium",
                EncoderPreset::Quality => "slow",
                EncoderPreset::MaxQuality => "veryslow",
            };
            opt(&mut v, "preset", preset);
            opt(&mut v, "tune", "zerolatency");
        },
    }
    assert(options_view(v@) =~= private_options(*settings));
    v
}

/// How the encoder's rate control is set up.
#[derive(Debug, Clone, Copy, PartialEq, Eq, Structural)]
pub struct RatePlan {
    /// Target bits per second; none in constant-QP mode.
    pub bit_rate: Option<u64>,
    /// Peak bits per second; none in constant-QP mode.
    pub max_bit_rate: Option<u64>,
    /// Frames between keyframes.
    pub gop: u64,
    pub max_b_frames: u8,
}

/// Target bitrate in bits per second: the configured kbps, else 6000.
pub open spec fn target_bps(s: EncoderSettings) -> int {
    match s.bitrate_kbps {
        Some(k) => k * 1000,
        None => 6_000_000int,
    }
}

/// CBR caps the peak at the target, VBR at 1.5x; the keyframe interval
/// in frames is the interval in seconds times the frame rate, rounded
/// half up.
pub open spec fn rate_plan(s: EncoderSettings, frame_rate: int) -> RatePlan {
    let b = target_bps(s);
    RatePlan {
        bit_rate: match s.rate_control {
            RateControlMode::Cqp => None,
            _ => Some(b as u64),
        },
        max_bit_rate: match s.rate_control {
            RateControlMode::Cbr => Some(b as u64),
            RateControlMode::Vbr => Some((b * 3 / 2) as u64),
            RateControlMode::Cqp => None,
        },
        gop: ((frame_rate * s.keyframe_interval_ms + 500) / 1000) as u64,
        max_b_frames: s.b_frames,
    }
}

pub fn encoder_rate_plan(settings: &EncoderSettings, frame_rate: u32) -> (p: RatePlan)
    ensures
        p == rate_plan(*settings, frame_rate as int),
{
    let kbps: u64 = match settings.bitrate_kbps {
        Some(k) => k as u64,
        None => 6000,
    };
    let bitrate = kbps * 1000;
    let (bit_rate, max_bit_rate) = match settings.rate_control {
        RateControlMode::Cbr => (Some(bitrate), Some(bitrate)),
        RateControlMode::Vbr => (Some(bitrate), Some(bitrate + bitrate / 2)),
        RateControlMode::Cqp => (None, None),
    };
    let ki = settings.keyframe_interval_ms;
    assert(frame_rate * ki <= 0xFFFF_FFFFu64 * 0xFFFF_FFFFu64) by (nonlinear_arith)
        requires
            frame_rate <= 0xFFFF_FFFFu32,
            ki <= 0xFFFF_FFFFu32,
    ;
    let gop = (frame_rate as u64 * settings.keyframe_interval_ms as u64 + 500) / 1000;
    RatePlan { bit_rate, max_bit_rate, gop, max_b_frames: settings.b_frames }
}

/// The muxer format name of a container.
pub open spec fn container_name(c: ContainerFormat) -> Seq<char> {
    match c {
        ContainerFormat::Mkv => "matroska"@,
        ContainerFormat::Mp4 => "mp4"@,
        ContainerFormat::WebM => "webm"@,
    }
}

pub fn container_format_name(container: ContainerFormat) -> (s: &'static str)
    ensures
        s@ == container_name(container),
{
    match container {
        ContainerFormat::Mkv => "matroska",
        ContainerFormat::Mp4 => "mp4",
        ContainerFormat::WebM => "webm",
    }
}

/// Frame interval in 100 ns units for a frame rate.
pub fn frame_interval_100ns(frame_rate: u32) -> (i: i64)
    requires
        frame_rate > 0,
    ensures
        i == 10_000_000int / (frame_rate as int),
{
    10_000_000i64 / frame_rate as i64
}

/// Whether a captured frame should be encoded under pacing: at least one
/// frame interval after the last encoded frame. Frames arriving faster
/// than the target rate are dropped.
pub fn frame_due(timestamp_100ns: i64, last_encoded_100ns: i64, interval_100ns: i64) -> (b: bool)
    ensures
        b == (timestamp_100ns - last_encoded_100ns >= interval_100ns),
{
    (timestamp_100ns as i128) - (last_encoded_100ns as i128) >= interval_100ns as i128
}

/// Sizes of the luma and chroma planes of an NV12 frame with the given
/// row stride and height, or `None` when `data_len` bytes cannot hold
/// both.
pub fn nv12_plane_sizes(data_len: usize, stride: u32, height: u32) -> (r: Option<(u64, u64)>)
    ensures
        match r {
            Some((y, uv)) => y == stride * height && uv == stride * height / 2 && y + uv <= data_len,
            None => stride * height + stride * height / 2 > data_len,
        },
{
    proof {
        crate::config::lemma_u32_product_fits(stride, height);
    }
    let y: u64 = stride as u64 * height as u64;
    let uv: u64 = y / 2;
    if (data_len as u128) < (y as u128) + (uv as u128) {
        None
    } else {
        Some((y, uv))
    }
}

/// What the encode loop does with a frame that arrived.
#[derive(Debug, Clone, Copy, PartialEq, Eq, Structural)]
pub enum FrameAction {
    /// Paused: dropped without counting, since a paused recording is not
    /// falling behind.
    SkipPaused,
    /// Arrived sooner than one frame interval after the last encoded
    /// frame: dropped and counted.
    DropForPacing,
    /// Sent to the encoder.
    Encode,
}

/// The encode loop's bookkeeping. `last_encoded_100ns` is `None` until a
/// frame has been sent to the encoder.
#[derive(Debug, Clone, Copy, PartialEq, Eq, Structural)]
pub struct PacerState {
    pub interval_100ns: i64,
    pub last_encoded_100ns: Option<i64>,
    pub frames_encoded: u64,
    pub frames_dropped: u64,
    pub paused: bool,
}

/// The decisions of the loop that feeds captured frames to the encoder:
/// pausing gates submission (the encoder and the file stay open), frames
/// faster than the target rate are dropped, and the counters behind the
/// encode statistics are kept.
pub struct EncodePacer {
    state: PacerState,
}

impl View for EncodePacer {
    type V = PacerState;

    closed spec fn view(&self) -> PacerState {
        self.state
    }
}

/// The state after a frame stamped `ts` arrives, and what is done with it.
pub open spec fn frame_effect(st: PacerState, ts: i64) -> (PacerState, FrameAction) {
    if st.paused {
        (st, FrameAction::SkipPaused)
    } else if st.last_encoded_100ns matches Some(last) && ts - last < st.interval_100ns {
        (PacerState { frames_dropped: st.frames_dropped.wrapping_add(1), ..st }, FrameAction::DropForPacing)
    } else {
        (PacerState { last_encoded_100ns: Some(ts), ..st }, FrameAction::Encode)
    }
}

impl EncodePacer {
    /// A running, unpaused loop for `frame_rate` frames per second that
    /// has encoded nothing yet, so its first frame is always due.
    pub fn new(frame_rate: u32) -> (p: Self)
        requires
            frame_rate > 0,
        ensures
            p@ == (PacerState {
                interval_100ns: (10_000_000int / (frame_rate as int)) as i64,
                last_encoded_100ns: None,
                frames_encoded: 0,
                frames_dropped: 0,
                paused: false,
            }),
    {
        EncodePacer {
            state: PacerState {
                interval_100ns: frame_interval_100ns(frame_rate),
                last_encoded_100ns: None,
                frames_encoded: 0,
                frames_dropped: 0,
                paused: false,
            },
        }
    }

    /// Decides what to do with a frame captured at `timestamp_100ns`.
    pub fn on_frame(&mut self, timestamp_100ns: i64) -> (a: FrameAction)
        ensures
            (final(self)@, a) == frame_effect(old(self)@, timestamp_100ns),
    {
        if self.state.paused {
            return FrameAction::SkipPaused;
        }
        let due = match self.state.last_encoded_100ns {
            None => true,
            Some(last) => frame_due(timestamp_100ns, last, self.state.interval_100ns),
        };
        if !due {
            self.state.frames_dropped = self.state.frames_dropped.wrapping_add(1);
            return FrameAction::DropForPacing;
        }
        self.state.last_encoded_100ns = Some(timestamp_100ns);
        FrameAction::Encode
    }

    /// Counts a packet the encoder produced.
    pub fn on_packet(&mut self)
        ensures
            final(self)@ == (PacerState { frames_encoded: old(self)@.frames_encoded.wrapping_add(1), ..old(self)@ }),
    {
        self.state.frames_encoded = self.state.frames_encoded.wrapping_add(1);
    }

    /// Counts frames lost because the loop fell behind capture.
    pub fn on_lagged(&mut self, skipped: u64)
        ensures
            final(self)@ == (PacerState {
                frames_dropped: old(self)@.frames_dropped.wrapping_add(skipped),
                ..old(self)@
            }),
    {
        self.state.frames_dropped = self.state.frames_dropped.wrapping_add(skipped);
    }

    pub fn set_paused(&mut self, paused: bool)
        ensures
            final(self)@ == (PacerState { paused, ..old(self)@ }),
    {
        self.state.paused = paused;
    }

    pub fn is_paused(&self) -> (b: bool)
        ensures
            b == self@.paused,
    {
        self.state.paused
    }

    /// The encode statistics this loop can report; rates, latency and
    /// queue depth are measured elsewhere and read zero here.
    pub fn stats(&self) -> (s: EncodeStats)
        ensures
            s.encode_fps_x100 == 0,
            s.avg_encode_latency_ms_x100 == 0,
            s.frames_encoded == self@.frames_encoded,
            s.frames_dropped_encoder_backpressure == self@.frames_dropped,
            s.encoder_queue_depth == 0,
    {
        EncodeStats {
            encode_fps_x100: 0,
            avg_encode_latency_ms_x100: 0,
            frames_encoded: self.state.frames_encoded,
            frames_dropped_encoder_backpressure: self.state.frames_dropped,
            encoder_queue_depth: 0,
        }
    }
}

/// Pausing neither encodes nor counts anything, and resuming continues
/// from the same state.
pub proof fn law_paused_frames_change_nothing(st: PacerState, ts: i64)
    requires
        st.paused,
    ensures
        frame_effect(st, ts) == (st, FrameAction::SkipPaused),
{
}

/// Encoded frames are at least one interval apart: after an encode, a
/// frame sooner than the interval is dropped.
pub proof fn law_encoded_frames_are_paced(st: PacerState, t1: i64, t2: i64)
    requires
        frame_effect(st, t1).1 == FrameAction::Encode,
        t2 - t1 < st.interval_100ns,
    ensures
        frame_effect(frame_effect(st, t1).0, t2).1 == FrameAction::DropForPacing,
{
}

/// The first frame of a fresh loop is encoded, whatever its timestamp.
pub proof fn law_first_frame_is_encoded(frame_rate: u32, ts: i64)
    requires
        frame_rate > 0,
    ensures
        frame_effect(
            PacerState {
                interval_100ns: (10_000_000int / (frame_rate as int)) as i64,
                last_encoded_100ns: None,
                frames_encoded: 0,
                frames_dropped: 0,
                paused: false,
            },
            ts,
        ).1 == FrameAction::Encode,
{
}

/// Integer division rounding toward zero, as Rust's `/` rounds.
pub open spec fn div_toward_zero(n: int, d: int) -> int {
    if n >= 0 { n / d } else { -((-n) / d) }
}

fn div_i128_toward_zero(n: i128, d: u64) -> (q: i128)
    requires
        d > 0,
        n > i128::MIN,
    ensures
        q == div_toward_zero(n as int, d as int),
{
    if n >= 0 {
        (n as u128 / d as u128) as i128
    } else {
        let a = (-n) as u128;
        let q = a / d as u128;
        assert(q <= a);
        -(q as i128)
    }
}

/// A timestamp in an encoder time base of `1 / time_base_den` seconds,
/// converted to 100 ns units.
pub fn time_base_to_100ns(ticks: i64, time_base_den: i32) -> (t: i64)
    requires
        time_base_den > 0,
        i64::MIN <= div_toward_zero(ticks * 10_000_000, time_base_den as int) <= i64::MAX,
    ensures
        t == div_toward_zero(ticks * 10_000_000, time_base_den as int),
{
    assert(i64::MIN * 10_000_000 <= ticks * 10_000_000 <= i64::MAX * 10_000_000) by (nonlinear_arith)
        requires
            i64::MIN <= ticks <= i64::MAX,
    ;
    div_i128_toward_zero(ticks as i128 * 10_000_000, time_base_den as u64) as i64
}

/// A packet timestamp as the muxer is handed it: 100 ns units divided by
/// 1000, rounding toward zero.
pub fn muxer_timestamp(ts_100ns: i64) -> (t: i64)
    ensures
        t == div_toward_zero(ts_100ns as int, 1000),
{
    div_i128_toward_zero(ts_100ns as i128, 1000) as i64
}

/// The output stream a packet is written to; an audio packet needs an
/// audio stream.
pub fn muxer_stream_index(kind: StreamKind, video_stream_index: usize, audio_stream_index: Option<usize>) -> (r: Result<usize, BrailError>)
    ensures
        kind == StreamKind::Video ==> r == Ok::<usize, BrailError>(video_stream_index),
        kind == StreamKind::Audio && audio_stream_index is Some ==> r == Ok::<usize, BrailError>(audio_stream_index.unwrap()),
        kind == StreamKind::Audio && audio_stream_index is None ==> is_internal_error(r,
            "audio packet with no audio stream configured"@),
{
    match kind {
        StreamKind::Video => Ok(video_stream_index),
        StreamKind::Audio => match audio_stream_index {
            Some(a) => Ok(a),
            None => Err(BrailError::Internal(String::from_str("audio packet with no audio stream configured"))),
        },
    }
}

} // verus!
