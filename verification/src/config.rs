use vstd::prelude::*;

verus! {

/// A frame size in pixels.
#[derive(Debug, Clone, Copy, PartialEq, Eq, Structural)]
pub struct Resolution {
    pub width: u32,
    pub height: u32,
}

/// The resolution with the given width and height.
pub open spec fn res(width: u32, height: u32) -> Resolution {
    Resolution { width, height }
}

/// Number of pixels in a frame of the given size.
pub open spec fn pixels(r: Resolution) -> int {
    r.width * r.height
}

/// The product of two `u32` values always fits in a `u64`.
pub proof fn lemma_u32_product_fits(a: u32, b: u32)
    ensures
        0 <= a * b <= u64::MAX,
{
    assert(0 <= a * b <= u32::MAX * u32::MAX) by (nonlinear_arith)
        requires
            0 <= a <= u32::MAX,
            0 <= b <= u32::MAX,
    ;
}

impl Resolution {
    pub fn new(width: u32, height: u32) -> (r: Self)
        ensures
            r.width == width,
            r.height == height,
    {
        Resolution { width, height }
    }

    pub fn pixel_count(&self) -> (n: u64)
        ensures
            n == pixels(*self),
    {
        proof {
            lemma_u32_product_fits(self.width, self.height);
        }
        self.width as u64 * self.height as u64
    }
}

/// The labelled resolution rungs offered in the settings, from 144p up to
/// 2160p. Custom resolutions are validated against the source instead.
pub fn resolution_presets() -> (v: Vec<(&'static str, Resolution)>)
    ensures
        v@.len() == 10,
        v@[0].0@ == "144p"@ && v@[0].1 == res(256, 144),
        v@[1].0@ == "240p"@ && v@[1].1 == res(426, 240),
        v@[2].0@ == "360p"@ && v@[2].1 == res(640, 360),
        v@[3].0@ == "480p"@ && v@[3].1 == res(854, 480),
        v@[4].0@ == "540p"@ && v@[4].1 == res(960, 540),
        v@[5].0@ == "720p"@ && v@[5].1 == res(1280, 720),
        v@[6].0@ == "900p"@ && v@[6].1 == res(1600, 900),
        v@[7].0@ == "1080p"@ && v@[7].1 == res(1920, 1080),
        v@[8].0@ == "1440p"@ && v@[8].1 == res(2560, 1440),
        v@[9].0@ == "2160p"@ && v@[9].1 == res(3840, 2160),
{
    let mut v: Vec<(&'static str, Resolution)> = Vec::new();
    v.push(("144p", Resolution::new(256, 144)));
    v.push(("240p", Resolution::new(426, 240)));
    v.push(("360p", Resolution::new(640, 360)));
    v.push(("480p", Resolution::new(854, 480)));
    v.push(("540p", Resolution::new(960, 540)));
    v.push(("720p", Resolution::new(1280, 720)));
    v.push(("900p", Resolution::new(1600, 900)));
    v.push(("1080p", Resolution::new(1920, 1080)));
    v.push(("1440p", Resolution::new(2560, 1440)));
    v.push(("2160p", Resolution::new(3840, 2160)));
    v
}

#[derive(Debug, Clone, Copy, PartialEq, Eq, Structural)]
pub enum FrameRate {
    Fps30,
    Fps60,
    Fps90,
    Fps120,
}

/// Frames per second of a frame-rate setting.
pub open spec fn fps_value(f: FrameRate) -> u32 {
    match f {
        FrameRate::Fps30 => 30,
        FrameRate::Fps60 => 60,
        FrameRate::Fps90 => 90,
        FrameRate::Fps120 => 120,
    }
}

impl FrameRate {
    pub fn as_u32(&self) -> (n: u32)
        ensures
            n == fps_value(*self),
    {
        match self {
            FrameRate::Fps30 => 30,
            FrameRate::Fps60 => 60,
            FrameRate::Fps90 => 90,
            FrameRate::Fps120 => 120,
        }
    }
}

#[derive(Debug, Clone, Copy, PartialEq, Eq, Structural)]
pub enum VideoCodec {
    H264,
    Hevc,
    Av1,
}

#[derive(Debug, Clone, Copy, PartialEq, Eq, Structural)]
pub enum EncoderBackend {
    /// NVIDIA NVENC.
    Nvenc,
    /// AMD AMF.
    Amf,
    /// Intel Quick Sync.
    Qsv,
    /// libx264/libx265/libaom-av1 software fallback.
    Software,
}

/// User-facing name of a codec.
pub open spec fn codec_label(c: VideoCodec) -> Seq<char> {
    match c {
        VideoCodec::H264 => "H.264"@,
        VideoCodec::Hevc => "HEVC"@,
        VideoCodec::Av1 => "AV1"@,
    }
}

/// User-facing name of an encoder backend.
pub open spec fn backend_label(b: EncoderBackend) -> Seq<char> {
    match b {
        EncoderBackend::Nvenc => "NVIDIA NVENC"@,
        EncoderBackend::Amf => "AMD AMF"@,
        EncoderBackend::Qsv => "Intel Quick Sync"@,
        EncoderBackend::Software => "Software (CPU)"@,
    }
}

/// Every backend but the CPU fallback runs on dedicated hardware.
pub open spec fn is_hardware_backend(b: EncoderBackend) -> bool {
    b != EncoderBackend::Software
}

fn codec_name(codec: VideoCodec) -> (s: &'static str)
    ensures
        s@ == codec_label(codec),
{
    match codec {
        VideoCodec::H264 => "H.264",
        VideoCodec::Hevc => "HEVC",
        VideoCodec::Av1 => "AV1",
    }
}

impl EncoderBackend {
    fn backend_name(&self) -> (s: &'static str)
        ensures
            s@ == backend_label(*self),
    {
        match self {
            EncoderBackend::Nvenc => "NVIDIA NVENC",
            EncoderBackend::Amf => "AMD AMF",
            EncoderBackend::Qsv => "Intel Quick Sync",
            EncoderBackend::Software => "Software (CPU)",
        }
    }

    /// "<backend> <codec>", e.g. "NVIDIA NVENC H.264".
    pub fn display_name(&self, codec: VideoCodec) -> (s: String)
        ensures
            s@ == backend_label(*self) + " "@ + codec_label(codec),
    {
        let mut s = String::from_str(self.backend_name());
        s.append(" ");
        s.append(codec_name(codec));
        s
    }

    pub fn is_hardware(&self) -> (b: bool)
        ensures
            b == is_hardware_backend(*self),
    {
        match self {
            EncoderBackend::Software => false,
            _ => true,
        }
    }
}

#[derive(Debug, Clone, Copy, PartialEq, Eq, Structural)]
pub enum RateControlMode {
    Cbr,
    Vbr,
    /// Constant-quality mode: no bitrate target, quality is set directly.
    Cqp,
}

#[derive(Debug, Clone, Copy, PartialEq, Eq, Structural)]
pub enum EncoderPreset {
    /// Lowest encode cost, larger files.
    Fastest,
    Fast,
    Balanced,
    Quality,
    /// Highest quality per bit, most encode cost.
    MaxQuality,
}

#[derive(Debug, Clone, Copy, PartialEq, Eq, Structural)]
pub enum EncoderProfile {
    Baseline,
    Main,
    High,
}

/// Everything an encoder is opened with. The keyframe interval is held in
/// milliseconds.
#[derive(Debug, Clone, Copy, PartialEq, Eq, Structural)]
pub struct EncoderSettings {
    pub backend: EncoderBackend,
    pub codec: VideoCodec,
    pub rate_control: RateControlMode,
    pub bitrate_kbps: Option<u32>,
    pub cqp_level: Option<u8>,
    pub keyframe_interval_ms: u32,
    pub preset: EncoderPreset,
    pub profile: EncoderProfile,
    pub b_frames: u8,
}

#[derive(Debug, Clone, Copy, PartialEq, Eq, Structural)]
pub enum ContainerFormat {
    Mkv,
    Mp4,
    WebM,
}

#[derive(Debug, Clone, Copy, PartialEq, Eq, Structural)]
pub enum StreamingProtocol {
    Rtmp,
    Rtmps,
    Srt,
}

#[derive(Debug, Clone, Copy, PartialEq, Eq, Structural)]
pub enum StreamingService {
    YouTube,
    Twitch,
    Facebook,
    Custom,
}

/// The documented primary ingest endpoint of a service; custom profiles
/// supply their own.
pub open spec fn default_ingest(s: StreamingService) -> Option<Seq<char>> {
    match s {
        StreamingService::YouTube => Some("rtmp://a.rtmp.youtube.com/live2"@),
        StreamingService::Twitch => Some("rtmp://live.twitch.tv/app"@),
        StreamingService::Facebook => Some("rtmps://live-api-s.facebook.com:443/rtmp"@),
        StreamingService::Custom => None,
    }
}

impl StreamingService {
    pub fn default_server_url(&self) -> (r: Option<&'static str>)
        ensures
            r is None <==> default_ingest(*self) is None,
            r matches Some(u) ==> default_ingest(*self) == Some(u@),
    {
        match self {
            StreamingService::YouTube => Some("rtmp://a.rtmp.youtube.com/live2"),
            StreamingService::Twitch => Some("rtmp://live.twitch.tv/app"),
            StreamingService::Facebook => Some("rtmps://live-api-s.facebook.com:443/rtmp"),
            StreamingService::Custom => None,
        }
    }
}

/// Automatic reconnect behaviour of a stream.
#[derive(Debug, Clone, Copy, PartialEq, Eq, Structural)]
pub struct ReconnectPolicy {
    pub enabled: bool,
    pub max_attempts: u32,
    pub initial_backoff_ms: u64,
    pub max_backoff_ms: u64,
}

impl Default for ReconnectPolicy {
    fn default() -> (p: Self)
        ensures
            p == (ReconnectPolicy {
                enabled: true,
                max_attempts: 10,
                initial_backoff_ms: 1000,
                max_backoff_ms: 30_000,
            }),
    {
        ReconnectPolicy { enabled: true, max_attempts: 10, initial_backoff_ms: 1000, max_backoff_ms: 30_000 }
    }
}

#[derive(Debug, Clone, Copy, PartialEq, Eq, Structural)]
pub enum UiMode {
    Beginner,
    Advanced,
}

/// What a recording is made with. The container is the resilient one
/// written live; `remux_to`, when set, is produced after a clean stop
/// without re-encoding.
pub struct RecordingSettings {
    pub resolution: Resolution,
    pub frame_rate: FrameRate,
    pub encoder: EncoderSettings,
    pub container: ContainerFormat,
    pub remux_to: Option<ContainerFormat>,
    pub output_dir: String,
    pub capture_cursor: bool,
    pub highlight_cursor: bool,
}

/// A streaming destination. The stream key is held only transiently,
/// after the vault has read it for a connection attempt; the profile id
/// is a UUID's sixteen bytes.
pub struct StreamProfile {
    pub id: [u8; 16],
    pub name: String,
    pub service: StreamingService,
    pub protocol: StreamingProtocol,
    pub server_url: String,
    pub stream_key: Option<String>,
    pub resolution: Resolution,
    pub frame_rate: FrameRate,
    pub encoder: EncoderSettings,
    pub reconnect: ReconnectPolicy,
}

/// The rolling replay buffer's settings: 15, 30, 60, 120 and 300 seconds
/// are offered, any other length is a valid custom one.
pub struct InstantReplaySettings {
    pub enabled: bool,
    pub buffer_seconds: u32,
    pub resolution: Resolution,
    pub frame_rate: FrameRate,
    pub encoder: EncoderSettings,
}

} // verus!
