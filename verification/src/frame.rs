//! What moves through the capture and encode pipelines: pixel formats,
//! audio sources and encoded packets.

use vstd::prelude::*;

use crate::config::VideoCodec;

verus! {

/// Pixel format of a captured or encoded frame: BGRA8 is what capture
/// produces natively, NV12 what most hardware encoders take directly.
#[derive(Debug, Clone, Copy, PartialEq, Eq, Structural)]
pub enum PixelFormat {
    Bgra8,
    Nv12,
}

/// Where a block of audio came from.
#[derive(Debug, Clone, Copy, PartialEq, Eq, Structural)]
pub enum AudioSource {
    DesktopLoopback,
    Microphone,
    /// Already mixed from the other two.
    Mixed,
}

#[derive(Debug, Clone, Copy, PartialEq, Eq, Structural)]
pub enum StreamKind {
    Video,
    Audio,
}

/// A compressed access unit out of an encoder, ready to be muxed or sent.
pub struct EncodedPacket {
    pub data: Vec<u8>,
    pub pts_100ns: i64,
    pub dts_100ns: i64,
    pub is_keyframe: bool,
    pub codec: VideoCodec,
    pub stream: StreamKind,
}

/// Two packets carry the same bytes and metadata.
pub open spec fn same_packet(a: EncodedPacket, b: EncodedPacket) -> bool {
    &&& a.data@ == b.data@
    &&& a.pts_100ns == b.pts_100ns
    &&& a.dts_100ns == b.dts_100ns
    &&& a.is_keyframe == b.is_keyframe
    &&& a.codec == b.codec
    &&& a.stream == b.stream
}

impl EncodedPacket {
    /// A copy of this packet.
    pub fn duplicate(&self) -> (p: EncodedPacket)
        ensures
            same_packet(p, *self),
    {
        let mut data: Vec<u8> = Vec::new();
        let mut i: usize = 0;
        while i < self.data.len()
            invariant
                0 <= i <= self.data@.len(),
                data@ == self.data@.take(i as int),
            decreases self.data@.len() - i,
        {
            data.push(self.data[i]);
            assert(self.data@.take(i + 1) == self.data@.take(i as int).push(self.data@[i as int]));
            i += 1;
        }
        assert(self.data@.take(self.data@.len() as int) == self.data@);
        EncodedPacket {
            data,
            pts_100ns: self.pts_100ns,
            dts_100ns: self.dts_100ns,
            is_keyframe: self.is_keyframe,
            codec: self.codec,
            stream: self.stream,
        }
    }
}

} // verus!
