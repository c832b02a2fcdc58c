use vstd::prelude::*;

use crate::config::{
    fps_value, is_hardware_backend, pixels, res, EncoderBackend, EncoderPreset, EncoderProfile,
    EncoderSettings, FrameRate, RateControlMode, Resolution, StreamingService, VideoCodec,
};
use crate::profile::{CapabilityProfile, EncoderCapability};

verus! {

/// The six stream quality presets. Each is offered only when the machine's
/// verified encoders can sustain its resolution.
#[derive(Debug, Clone, Copy, PartialEq, Eq, Structural)]
pub enum QualityPreset {
    UltraLow,
    Low,
    Balanced,
    FullHd,
    High,
    Ultra,
}

pub open spec fn preset_name(p: QualityPreset) -> Seq<char> {
    match p {
        QualityPreset::UltraLow => "Ultra Low"@,
        QualityPreset::Low => "Low"@,
        QualityPreset::Balanced => "Balanced"@,
        QualityPreset::FullHd => "Full HD"@,
        QualityPreset::High => "High"@,
        QualityPreset::Ultra => "Ultra"@,
    }
}

pub open spec fn preset_resolution(p: QualityPreset) -> Resolution {
    match p {
        QualityPreset::UltraLow => res(640, 360),
        QualityPreset::Low => res(854, 480),
        QualityPreset::Balanced => res(1280, 720),
        QualityPreset::FullHd => res(1920, 1080),
        QualityPreset::High => res(2560, 1440),
        QualityPreset::Ultra => res(3840, 2160),
    }
}

pub open spec fn preset_frame_rate(p: QualityPreset) -> FrameRate {
    match p {
        QualityPreset::UltraLow | QualityPreset::Low => FrameRate::Fps30,
        _ => FrameRate::Fps60,
    }
}

/// Some verified encoder's ceiling covers `needed` pixels.
pub open spec fn any_encoder_covers(encs: Seq<EncoderCapability>, needed: int) -> bool {
    exists|i: int| #![trigger encs[i]] 0 <= i < encs.len() && encs[i].verified && pixels(encs[i].max_resolution) >= needed
}

/// Every preset in presentation order.
pub fn all_quality_presets() -> (v: Vec<QualityPreset>)
    ensures
        v@ == seq![QualityPreset::UltraLow, QualityPreset::Low, QualityPreset::Balanced,
            QualityPreset::FullHd, QualityPreset::High, QualityPreset::Ultra],
{
    let mut v = Vec::new();
    v.push(QualityPreset::UltraLow);
    v.push(QualityPreset::Low);
    v.push(QualityPreset::Balanced);
    v.push(QualityPreset::FullHd);
    v.push(QualityPreset::High);
    v.push(QualityPreset::Ultra);
    v
}

impl QualityPreset {
    pub fn display_name(&self) -> (s: &'static str)
        ensures
            s@ == preset_name(*self),
    {
        match self {
            QualityPreset::UltraLow => "Ultra Low",
            QualityPreset::Low => "Low",
            QualityPreset::Balanced => "Balanced",
            QualityPreset::FullHd => "Full HD",
            QualityPreset::High => "High",
            QualityPreset::Ultra => "Ultra",
        }
    }

    pub fn resolution(&self) -> (r: Resolution)
        ensures
            r == preset_resolution(*self),
    {
        match self {
            QualityPreset::UltraLow => Resolution::new(640, 360),
            QualityPreset::Low => Resolution::new(854, 480),
            QualityPreset::Balanced => Resolution::new(1280, 720),
            QualityPreset::FullHd => Resolution::new(1920, 1080),
            QualityPreset::High => Resolution::new(2560, 1440),
            QualityPreset::Ultra => Resolution::new(3840, 2160),
        }
    }

    pub fn frame_rate(&self) -> (f: FrameRate)
        ensures
            f == preset_frame_rate(*self),
    {
        match self {
            QualityPreset::UltraLow | QualityPreset::Low => FrameRate::Fps30,
            _ => FrameRate::Fps60,
        }
    }

    /// Whether a verified encoder's reported ceiling covers this preset's
    /// resolution. It does not predict the framerate under load.
    pub fn is_supported_by(&self, caps: &CapabilityProfile) -> (b: bool)
        ensures
            b == any_encoder_covers(caps.supported_encoders@, pixels(preset_resolution(*self))),
    {
        let needed = self.resolution().pixel_count();
        let mut i: usize = 0;
        while i < caps.supported_encoders.len()
            invariant
                0 <= i <= caps.supported_encoders@.len(),
                needed == pixels(preset_resolution(*self)),
                forall|j: int| 0 <= j < i ==> !(#[trigger] caps.supported_encoders@[j].verified && pixels(caps.supported_encoders@[j].max_resolution) >= needed),
            decreases caps.supported_encoders@.len() - i,
        {
            let e = &caps.supported_encoders[i];
            if e.verified && e.max_resolution.pixel_count() >= needed {
                assert(caps.supported_encoders@[i as int].verified && pixels(caps.supported_encoders@[i as int].max_resolution) >= needed);
                return true;
            }
            i += 1;
        }
        false
    }
}

/// H.264 bitrate at 30 fps for a frame of `p` pixels, by the rungs the
/// streaming services publish.
pub open spec fn base_rate_30fps(p: int) -> int {
    if p <= 640 * 360 {
        800
    } else if p <= 854 * 480 {
        1_200
    } else if p <= 1280 * 720 {
        3_000
    } else if p <= 1920 * 1080 {
        6_000
    } else if p <= 2560 * 1440 {
        12_000
    } else {
        25_000
    }
}

/// Recommended video bitrate in kbps: the 30 fps base rate, 1.5x above
/// 30 fps, 0.75x for HEVC and 0.65x for AV1, capped at 6000 on Twitch.
pub open spec fn recommended_bitrate(r: Resolution, fps: int, codec: VideoCodec, service: StreamingService) -> int {
    let base = base_rate_30fps(pixels(r));
    let fps_scaled = if fps > 30 { base * 3 / 2 } else { base };
    let codec_scaled = match codec {
        VideoCodec::H264 => fps_scaled,
        VideoCodec::Hevc => fps_scaled * 75 / 100,
        VideoCodec::Av1 => fps_scaled * 65 / 100,
    };
    match service {
        StreamingService::Twitch => if codec_scaled < 6_000 { codec_scaled } else { 6_000 },
        _ => codec_scaled,
    }
}

/// A starting bitrate derived from resolution, fps, codec and service;
/// every value stays editable by the user.
pub fn recommended_bitrate_kbps(
    resolution: Resolution,
    fps: u32,
    codec: VideoCodec,
    service: StreamingService,
) -> (kbps: u32)
    ensures
        kbps == recommended_bitrate(resolution, fps as int, codec, service),
{
    let pixels = resolution.pixel_count();
    let base_30fps: u32 = if pixels <= 640 * 360 {
        800
    } else if pixels <= 854 * 480 {
        1_200
    } else if pixels <= 1280 * 720 {
        3_000
    } else if pixels <= 1920 * 1080 {
        6_000
    } else if pixels <= 2560 * 1440 {
        12_000
    } else {
        25_000
    };
    let fps_scaled: u32 = if fps > 30 { base_30fps * 3 / 2 } else { base_30fps };
    let codec_scaled: u32 = match codec {
        VideoCodec::H264 => fps_scaled,
        VideoCodec::Hevc => fps_scaled * 75 / 100,
        VideoCodec::Av1 => fps_scaled * 65 / 100,
    };
    match service {
        StreamingService::Twitch => if codec_scaled < 6_000 { codec_scaled } else { 6_000 },
        _ => codec_scaled,
    }
}

/// A named service profile: resolution, frame rate, bitrate and codec.
pub struct ServicePreset {
    pub label: String,
    pub resolution: Resolution,
    pub frame_rate: FrameRate,
    pub bitrate_kbps: u32,
    pub codec: VideoCodec,
}

impl ServicePreset {
    /// A copy of this preset.
    pub fn duplicate(&self) -> (p: ServicePreset)
        ensures
            p == *self,
    {
        ServicePreset {
            label: self.label.clone(),
            resolution: self.resolution,
            frame_rate: self.frame_rate,
            bitrate_kbps: self.bitrate_kbps,
            codec: self.codec,
        }
    }
}

/// The YouTube rungs: 720p, 1080p, 1440p and 4K, each at 30 and 60 fps.
pub open spec fn youtube_rung(i: int) -> (Seq<char>, Resolution, FrameRate) {
    if i == 0 {
        ("YouTube 720p30"@, res(1280, 720), FrameRate::Fps30)
    } else if i == 1 {
        ("YouTube 720p60"@, res(1280, 720), FrameRate::Fps60)
    } else if i == 2 {
        ("YouTube 1080p30"@, res(1920, 1080), FrameRate::Fps30)
    } else if i == 3 {
        ("YouTube 1080p60"@, res(1920, 1080), FrameRate::Fps60)
    } else if i == 4 {
        ("YouTube 1440p30"@, res(2560, 1440), FrameRate::Fps30)
    } else if i == 5 {
        ("YouTube 1440p60"@, res(2560, 1440), FrameRate::Fps60)
    } else if i == 6 {
        ("YouTube 4K30"@, res(3840, 2160), FrameRate::Fps30)
    } else {
        ("YouTube 4K60"@, res(3840, 2160), FrameRate::Fps60)
    }
}

/// The YouTube preset for rung `i` and `codec`.
pub open spec fn youtube_preset_matches(p: ServicePreset, i: int, codec: VideoCodec) -> bool {
    let (label, r, f) = youtube_rung(i);
    &&& p.label@ == label
    &&& p.resolution == r
    &&& p.frame_rate == f
    &&& p.codec == codec
    &&& p.bitrate_kbps == recommended_bitrate(r, fps_value(f) as int, codec, StreamingService::YouTube)
}

fn youtube_preset(label: &str, resolution: Resolution, frame_rate: FrameRate, codec: VideoCodec) -> (p: ServicePreset)
    ensures
        p.label@ == label@,
        p.resolution == resolution,
        p.frame_rate == frame_rate,
        p.codec == codec,
        p.bitrate_kbps == recommended_bitrate(resolution, fps_value(frame_rate) as int, codec, StreamingService::YouTube),
{
    ServicePreset {
        label: String::from_str(label),
        resolution,
        frame_rate,
        bitrate_kbps: recommended_bitrate_kbps(resolution, frame_rate.as_u32(), codec, StreamingService::YouTube),
        codec,
    }
}

/// The eight YouTube profiles, each bitrate derived from the same table as
/// the custom-resolution path.
pub fn youtube_presets(codec: VideoCodec) -> (v: Vec<ServicePreset>)
    ensures
        v@.len() == 8,
        forall|i: int| 0 <= i < 8 ==> youtube_preset_matches(#[trigger] v@[i], i, codec),
{
    let mut v: Vec<ServicePreset> = Vec::new();
    v.push(youtube_preset("YouTube 720p30", Resolution::new(1280, 720), FrameRate::Fps30, codec));
    v.push(youtube_preset("YouTube 720p60", Resolution::new(1280, 720), FrameRate::Fps60, codec));
    v.push(youtube_preset("YouTube 1080p30", Resolution::new(1920, 1080), FrameRate::Fps30, codec));
    v.push(youtube_preset("YouTube 1080p60", Resolution::new(1920, 1080), FrameRate::Fps60, codec));
    v.push(youtube_preset("YouTube 1440p30", Resolution::new(2560, 1440), FrameRate::Fps30, codec));
    v.push(youtube_preset("YouTube 1440p60", Resolution::new(2560, 1440), FrameRate::Fps60, codec));
    v.push(youtube_preset("YouTube 4K30", Resolution::new(3840, 2160), FrameRate::Fps30, codec));
    v.push(youtube_preset("YouTube 4K60", Resolution::new(3840, 2160), FrameRate::Fps60, codec));
    assert(youtube_preset_matches(v@[0], 0, codec));
    assert(youtube_preset_matches(v@[1], 1, codec));
    assert(youtube_preset_matches(v@[2], 2, codec));
    assert(youtube_preset_matches(v@[3], 3, codec));
    assert(youtube_preset_matches(v@[4], 4, codec));
    assert(youtube_preset_matches(v@[5], 5, codec));
    assert(youtube_preset_matches(v@[6], 6, codec));
    assert(youtube_preset_matches(v@[7], 7, codec));
    v
}

/// Encoder `e` can carry preset `p`: verified, same codec, and a ceiling
/// covering its resolution and frame rate.
pub open spec fn encoder_carries(e: EncoderCapability, p: ServicePreset) -> bool {
    &&& e.verified
    &&& e.codec == p.codec
    &&& pixels(e.max_resolution) >= pixels(p.resolution)
    &&& e.max_fps_at_max_resolution >= fps_value(p.frame_rate)
}

pub open spec fn preset_supported(encs: Seq<EncoderCapability>, p: ServicePreset) -> bool {
    exists|i: int| 0 <= i < encs.len() && encoder_carries(#[trigger] encs[i], p)
}

/// The presets of `s` that some encoder of `encs` can carry, in order.
pub open spec fn supported_presets(s: Seq<ServicePreset>, encs: Seq<EncoderCapability>) -> Seq<ServicePreset>
    decreases s.len(),
{
    if s.len() == 0 {
        Seq::empty()
    } else {
        let rest = supported_presets(s.drop_last(), encs);
        if preset_supported(encs, s.last()) {
            rest.push(s.last())
        } else {
            rest
        }
    }
}

fn encoder_carries_exec(e: &EncoderCapability, p: &ServicePreset) -> (b: bool)
    ensures
        b == encoder_carries(*e, *p),
{
    e.verified && e.codec == p.codec && e.max_resolution.pixel_count() >= p.resolution.pixel_count()
        && e.max_fps_at_max_resolution >= p.frame_rate.as_u32()
}

fn preset_supported_exec(encs: &Vec<EncoderCapability>, p: &ServicePreset) -> (b: bool)
    ensures
        b == preset_supported(encs@, *p),
{
    let mut i: usize = 0;
    while i < encs.len()
        invariant
            0 <= i <= encs@.len(),
            forall|j: int| 0 <= j < i ==> !encoder_carries(#[trigger] encs@[j], *p),
        decreases encs@.len() - i,
    {
        if encoder_carries_exec(&encs[i], p) {
            return true;
        }
        i += 1;
    }
    false
}

/// Keeps only the presets some verified encoder can carry, so unsupported
/// profiles are never displayed.
pub fn filter_supported(presets: Vec<ServicePreset>, caps: &CapabilityProfile) -> (out: Vec<ServicePreset>)
    ensures
        out@ == supported_presets(presets@, caps.supported_encoders@),
{
    let mut out: Vec<ServicePreset> = Vec::new();
    let mut i: usize = 0;
    while i < presets.len()
        invariant
            0 <= i <= presets@.len(),
            out@ == supported_presets(presets@.take(i as int), caps.supported_encoders@),
        decreases presets@.len() - i,
    {
        assert(presets@.take(i + 1).drop_last() == presets@.take(i as int));
        if preset_supported_exec(&caps.supported_encoders, &presets[i]) {
            out.push(presets[i].duplicate());
        }
        i += 1;
    }
    assert(presets@.take(presets@.len() as int) == presets@);
    out
}

/// Encoder `e` is usable for `codec` at resolution `r`.
pub open spec fn eligible(e: EncoderCapability, codec: VideoCodec, r: Resolution) -> bool {
    e.verified && e.codec == codec && pixels(e.max_resolution) >= pixels(r)
}

/// Hardware encoders rank before the CPU fallback.
pub open spec fn backend_rank(e: EncoderCapability) -> int {
    if is_hardware_backend(e.backend) { 0 } else { 1 }
}

/// Index `i` is the best encoder: eligible, of the lowest rank among the
/// eligible ones, and the first of that rank.
pub open spec fn is_best_encoder(encs: Seq<EncoderCapability>, codec: VideoCodec, r: Resolution, i: int) -> bool {
    &&& 0 <= i < encs.len()
    &&& eligible(encs[i], codec, r)
    &&& forall|j: int| 0 <= j < encs.len() && eligible(#[trigger] encs[j], codec, r) ==> backend_rank(encs[j]) >= backend_rank(encs[i])
    &&& forall|j: int| 0 <= j < i && eligible(#[trigger] encs[j], codec, r) ==> backend_rank(encs[j]) > backend_rank(encs[i])
}

fn eligible_exec(e: &EncoderCapability, codec: VideoCodec, r: Resolution) -> (b: bool)
    ensures
        b == eligible(*e, codec, r),
{
    e.verified && e.codec == codec && e.max_resolution.pixel_count() >= r.pixel_count()
}

/// The index of the best encoder for `codec` at `resolution`, if any.
pub fn best_encoder_index(caps: &CapabilityProfile, codec: VideoCodec, resolution: Resolution) -> (r: Option<usize>)
    ensures
        r is None <==> forall|j: int| 0 <= j < caps.supported_encoders@.len() ==> !eligible(#[trigger] caps.supported_encoders@[j], codec, resolution),
        r matches Some(i) ==> is_best_encoder(caps.supported_encoders@, codec, resolution, i as int),
{
        let mut best: Option<usize> = None;
    let mut i: usize = 0;
    while i < caps.supported_encoders.len()
        invariant
            0 <= i <= caps.supported_encoders@.len(),
            best is None <==> forall|j: int| 0 <= j < i ==> !eligible(#[trigger] caps.supported_encoders@[j], codec, resolution),
            best matches Some(b) ==> {
                &&& b < i
                &&& eligible(caps.supported_encoders@[b as int], codec, resolution)
                &&& forall|j: int| 0 <= j < i && eligible(#[trigger] caps.supported_encoders@[j], codec, resolution) ==> backend_rank(caps.supported_encoders@[j]) >= backend_rank(caps.supported_encoders@[b as int])
                &&& forall|j: int| 0 <= j < b && eligible(#[trigger] caps.supported_encoders@[j], codec, resolution) ==> backend_rank(caps.supported_encoders@[j]) > backend_rank(caps.supported_encoders@[b as int])
            },
        decreases caps.supported_encoders@.len() - i,
    {
        if eligible_exec(&caps.supported_encoders[i], codec, resolution) {
            match best {
                None => {
                    best = Some(i);
                },
                Some(b) => {
                    if caps.supported_encoders[i].backend.is_hardware() && !caps.supported_encoders[b].backend.is_hardware() {
                        best = Some(i);
                    }
                },
            }
        }
        i += 1;
    }
    best
}

/// Picks the best encoder for a codec, preferring hardware over the CPU
/// fallback. `None` only when nothing supports the codec at all.
pub fn best_encoder_for<'a>(caps: &'a CapabilityProfile, codec: VideoCodec, resolution: Resolution) -> (r: Option<&'a EncoderCapability>)
    ensures
        r is None <==> forall|j: int| 0 <= j < caps.supported_encoders@.len() ==> !eligible(#[trigger] caps.supported_encoders@[j], codec, resolution),
        r matches Some(e) ==> exists|i: int| is_best_encoder(caps.supported_encoders@, codec, resolution, i) && caps.supported_encoders@[i] == *e,
{
    match best_encoder_index(caps, codec, resolution) {
        Some(i) => Some(&caps.supported_encoders[i]),
        None => None,
    }
}

/// The backend chosen for a target: the best encoder's, else software.
pub open spec fn chosen_backend(encs: Seq<EncoderCapability>, codec: VideoCodec, r: Resolution, b: EncoderBackend) -> bool {
    if exists|j: int| 0 <= j < encs.len() && eligible(#[trigger] encs[j], codec, r) {
        exists|i: int| is_best_encoder(encs, codec, r, i) && encs[i].backend == b
    } else {
        b == EncoderBackend::Software
    }
}

/// Complete encoder settings for a target: the best verified encoder, the
/// recommended bitrate (Custom service when not streaming), CBR and no
/// B-frames for live streams, VBR and two B-frames for recordings, and a
/// two-second keyframe interval.
pub fn build_encoder_settings(
    caps: &CapabilityProfile,
    resolution: Resolution,
    fps: u32,
    codec: VideoCodec,
    service: Option<StreamingService>,
) -> (s: EncoderSettings)
    ensures
        chosen_backend(caps.supported_encoders@, codec, resolution, s.backend),
        s.codec == codec,
        s.rate_control == (if service is Some { RateControlMode::Cbr } else { RateControlMode::Vbr }),
        s.bitrate_kbps == Some(recommended_bitrate(resolution, fps as int,
            codec, match service { Some(x) => x, None => StreamingService::Custom }) as u32),
        s.cqp_level is None,
        s.keyframe_interval_ms == 2000,
        s.preset == EncoderPreset::Balanced,
        s.profile == EncoderProfile::High,
        s.b_frames == (if service is Some { 0u8 } else { 2u8 }),
{
    let backend = match best_encoder_index(caps, codec, resolution) {
        Some(i) => caps.supported_encoders[i].backend,
        None => EncoderBackend::Software,
    };
    let target_service = match service {
        Some(x) => x,
        None => StreamingService::Custom,
    };
    let bitrate = recommended_bitrate_kbps(resolution, fps, codec, target_service);
    let streaming = service.is_some();
    EncoderSettings {
        backend,
        codec,
        rate_control: if streaming { RateControlMode::Cbr } else { RateControlMode::Vbr },
        bitrate_kbps: Some(bitrate),
        cqp_level: None,
        keyframe_interval_ms: 2000,
        preset: EncoderPreset::Balanced,
        profile: EncoderProfile::High,
        b_frames: if streaming { 0 } else { 2 },
    }
}

/// Twitch never gets more than 6000 kbps recommended, whatever the
/// resolution, frame rate or codec.
pub proof fn law_twitch_bitrate_capped(r: Resolution, fps: int, codec: VideoCodec)
    ensures
        recommended_bitrate(r, fps, codec, StreamingService::Twitch) <= 6_000,
{
}

/// The newer codecs never need more bitrate than the older ones for the
/// same picture: AV1 at most HEVC at most H.264.
pub proof fn law_newer_codecs_need_less(r: Resolution, fps: int, service: StreamingService)
    ensures
        recommended_bitrate(r, fps, VideoCodec::Av1, service) <= recommended_bitrate(r, fps, VideoCodec::Hevc, service),
        recommended_bitrate(r, fps, VideoCodec::Hevc, service) <= recommended_bitrate(r, fps, VideoCodec::H264, service),
{
    let base = base_rate_30fps(pixels(r));
    let f = if fps > 30 { base * 3 / 2 } else { base };
    assert(f >= 0);
    assert(f * 65 / 100 <= f * 75 / 100) by (nonlinear_arith)
        requires
            f >= 0,
    ;
    assert(f * 75 / 100 <= f) by (nonlinear_arith)
        requires
            f >= 0,
    ;
}

/// More pixels or more frames never lower the recommendation.
pub proof fn law_bitrate_grows_with_the_picture(r1: Resolution, r2: Resolution, fps1: int, fps2: int, codec: VideoCodec, service: StreamingService)
    requires
        pixels(r1) <= pixels(r2),
        fps1 <= fps2,
    ensures
        recommended_bitrate(r1, fps1, codec, service) <= recommended_bitrate(r2, fps2, codec, service),
{
    let b1 = base_rate_30fps(pixels(r1));
    let b2 = base_rate_30fps(pixels(r2));
    assert(b1 <= b2);
    let f1 = if fps1 > 30 { b1 * 3 / 2 } else { b1 };
    let f2 = if fps2 > 30 { b2 * 3 / 2 } else { b2 };
    assert(f1 <= f2);
    assert(f1 * 75 / 100 <= f2 * 75 / 100) by (nonlinear_arith)
        requires
            0 <= f1 <= f2,
    ;
    assert(f1 * 65 / 100 <= f2 * 65 / 100) by (nonlinear_arith)
        requires
            0 <= f1 <= f2,
    ;
}

} // verus!
