//! Audio stream bookkeeping: endpoint formats, packet sizes, where each
//! source goes in the mixer and the pipeline's common format.

use vstd::prelude::*;

use crate::config::VideoCodec;
use crate::frame::{AudioSource, EncodedPacket, StreamKind};

verus! {

/// The sample rate every source is resampled to before mixing.
pub const PIPELINE_SAMPLE_RATE: u32 = 48_000;

/// The channel count every source is resampled to before mixing.
pub const PIPELINE_CHANNELS: u16 = 2;

/// An endpoint's shared-mode format.
#[derive(Debug, Clone, Copy, PartialEq, Eq, Structural)]
pub struct WaveFormat {
    pub sample_rate: u32,
    pub channels: u16,
    pub bits_per_sample: u16,
}

/// Bytes in one frame (one sample per channel); a partial byte of a
/// sample is not counted.
pub open spec fn frame_bytes(f: WaveFormat) -> int {
    (f.bits_per_sample as int / 8) * f.channels
}

impl WaveFormat {
    pub fn bytes_per_frame(&self) -> (n: u32)
        ensures
            n == frame_bytes(*self),
    {
        assert((self.bits_per_sample as int / 8) * self.channels <= 8191 * 65535) by (nonlinear_arith)
            requires
                self.bits_per_sample as int / 8 <= 8191,
                self.channels <= 65535,
        ;
        (self.bits_per_sample / 8) as u32 * self.channels as u32
    }

    /// Bytes of a captured packet of `frames` frames.
    pub fn packet_byte_len(&self, frames: u32) -> (n: u64)
        ensures
            n == frames * frame_bytes(*self),
    {
        let per = self.bytes_per_frame();
        assert(frames * per <= 0xFFFF_FFFFu64 * 0xFFFF_FFFFu64) by (nonlinear_arith)
            requires
                frames <= 0xFFFF_FFFFu32,
                per <= 0xFFFF_FFFFu32,
        ;
        frames as u64 * per as u64
    }
}

/// Whether a captured packet carries the silent flag
/// (`AUDCLNT_BUFFERFLAGS_SILENT`, bit value 2). Its memory is then not
/// guaranteed to hold zeros, so silence must be synthesized.
pub fn is_silent_packet(flags: u32) -> (b: bool)
    ensures
        b == (flags & 2u32 != 0),
{
    flags & 2 != 0
}

/// The mixer's two lanes.
#[derive(Debug, Clone, Copy, PartialEq, Eq, Structural)]
pub enum MixerLane {
    Desktop,
    Microphone,
}

/// Which lane a block of audio is mixed in. Already-mixed audio counts as
/// desktop audio, so mixing it again never counts it twice against the
/// microphone.
pub fn mixer_lane(source: AudioSource) -> (l: MixerLane)
    ensures
        l == (if source == AudioSource::Microphone { MixerLane::Microphone } else { MixerLane::Desktop }),
{
    match source {
        AudioSource::Microphone => MixerLane::Microphone,
        AudioSource::DesktopLoopback | AudioSource::Mixed => MixerLane::Desktop,
    }
}

/// How many samples the two lanes can be mixed over now: as many as the
/// shorter holds; the rest waits for its counterpart.
pub fn mixable_len(desktop_len: usize, mic_len: usize) -> (n: usize)
    ensures
        n == (if desktop_len < mic_len { desktop_len } else { mic_len }),
{
    if desktop_len < mic_len {
        desktop_len
    } else {
        mic_len
    }
}

/// Channel layout a resampler is set up with: mono for one channel,
/// stereo for anything else.
#[derive(Debug, Clone, Copy, PartialEq, Eq, Structural)]
pub enum ChannelLayout {
    Mono,
    Stereo,
}

pub fn channel_layout(channels: u16) -> (l: ChannelLayout)
    ensures
        l == (if channels == 1 { ChannelLayout::Mono } else { ChannelLayout::Stereo }),
{
    if channels == 1 {
        ChannelLayout::Mono
    } else {
        ChannelLayout::Stereo
    }
}

/// The source format a resampler was built for. An endpoint's format can
/// change without a device-change event, so every block is checked
/// against it.
#[derive(Debug, Clone, Copy, PartialEq, Eq, Structural)]
pub struct ResamplerInput {
    pub input_rate: u32,
    pub input_channels: u16,
}

impl ResamplerInput {
    pub fn matches(&self, rate: u32, channels: u16) -> (b: bool)
        ensures
            b == (self.input_rate == rate && self.input_channels == channels),
    {
        self.input_rate == rate && self.input_channels == channels
    }
}

/// Samples per channel in a block of packed 32-bit float audio.
pub fn samples_per_channel(byte_len: usize, channels: u16) -> (n: usize)
    requires
        channels > 0,
    ensures
        n == (byte_len as int / 4) / (channels as int),
{
    byte_len / 4 / channels as usize
}

/// The packet an encoded block of audio travels in: stamped with its
/// block's capture time for both presentation and decoding, and always a
/// keyframe, since AAC packets do not depend on one another. Audio packets
/// carry no video codec; the field holds H.264 and is not read.
pub fn audio_packet(data: Vec<u8>, timestamp_100ns: i64) -> (p: EncodedPacket)
    ensures
        p.data == data,
        p.pts_100ns == timestamp_100ns,
        p.dts_100ns == timestamp_100ns,
        p.is_keyframe,
        p.codec == VideoCodec::H264,
        p.stream == StreamKind::Audio,
{
    EncodedPacket {
        data,
        pts_100ns: timestamp_100ns,
        dts_100ns: timestamp_100ns,
        is_keyframe: true,
        codec: VideoCodec::H264,
        stream: StreamKind::Audio,
    }
}

/// The AAC encoder's target bitrate, in bits per second.
pub const AAC_BITRATE: u32 = 160_000;

} // verus!
