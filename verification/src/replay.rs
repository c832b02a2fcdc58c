//! The instant-replay buffer: a time-windowed queue of encoded packets
//! whose front is only ever cut at a video keyframe, so a saved clip
//! always starts decodable.

use std::collections::VecDeque;

use vstd::prelude::*;

use crate::config::VideoCodec;
use crate::frame::{same_packet, EncodedPacket, StreamKind};
use crate::error::{is_internal_error, BrailError};

verus! {

/// A video keyframe: the only place a clip can start decodably.
pub open spec fn is_video_key(p: EncodedPacket) -> bool {
    p.stream == StreamKind::Video && p.is_keyframe
}

/// Index of the first packet presented after `cutoff`, or the length.
pub open spec fn first_after(s: Seq<EncodedPacket>, cutoff: int) -> int
    decreases s.len(),
{
    if s.len() == 0 {
        0
    } else if s[0].pts_100ns > cutoff {
        0
    } else {
        1 + first_after(s.drop_first(), cutoff)
    }
}

/// Index of the last video keyframe among the first `k` packets, or 0.
pub open spec fn last_key_before(s: Seq<EncodedPacket>, k: int) -> int
    decreases k,
{
    if k <= 0 {
        0
    } else if is_video_key(s[k - 1]) {
        k - 1
    } else {
        last_key_before(s, k - 1)
    }
}

/// Where eviction cuts: the latest video keyframe presented at or before
/// `window` before the newest packet.
pub open spec fn eviction_boundary(s: Seq<EncodedPacket>, window: int) -> int {
    let cutoff = s.last().pts_100ns - window;
    last_key_before(s, first_after(s, cutoff))
}

/// The buffer after evicting everything older than the window, cut at a
/// keyframe.
pub open spec fn evicted(s: Seq<EncodedPacket>, window: int) -> Seq<EncodedPacket> {
    if s.len() == 0 {
        s
    } else {
        s.skip(eviction_boundary(s, window))
    }
}

proof fn lemma_first_after(s: Seq<EncodedPacket>, cutoff: int, i: int)
    requires
        0 <= i <= s.len(),
        forall|j: int| 0 <= j < i ==> (#[trigger] s[j]).pts_100ns <= cutoff,
        i < s.len() ==> s[i].pts_100ns > cutoff,
    ensures
        first_after(s, cutoff) == i,
    decreases i,
{
    if i > 0 {
        assert(s[0].pts_100ns <= cutoff);
        assert forall|j: int| 0 <= j < i - 1 implies (#[trigger] s.drop_first()[j]).pts_100ns <= cutoff by {
            assert(s.drop_first()[j] == s[j + 1]);
        }
        lemma_first_after(s.drop_first(), cutoff, i - 1);
    }
}

proof fn lemma_last_key_before(s: Seq<EncodedPacket>, k: int)
    requires
        0 <= k <= s.len(),
    ensures
        0 <= last_key_before(s, k) <= (if k > 0 { k - 1 } else { 0 }),
        last_key_before(s, k) > 0 ==> is_video_key(s[last_key_before(s, k)]),
        forall|j: int| last_key_before(s, k) < j < k ==> !is_video_key(#[trigger] s[j]),
    decreases k,
{
    if k > 0 && !is_video_key(s[k - 1]) {
        lemma_last_key_before(s, k - 1);
    }
}

/// Largest window the buffer is made with, in 100 ns units.
pub open spec fn max_window() -> int {
    u32::MAX * 10_000_000
}

/// Holds up to a window's worth of encoded packets, oldest first.
pub struct RingBuffer {
    packets: VecDeque<EncodedPacket>,
    window_100ns: i64,
}

impl View for RingBuffer {
    type V = Seq<EncodedPacket>;

    closed spec fn view(&self) -> Seq<EncodedPacket> {
        self.packets@
    }
}

impl RingBuffer {
    /// The window, in 100 ns units.
    pub closed spec fn window(&self) -> int {
        self.window_100ns as int
    }

    pub closed spec fn wf(&self) -> bool {
        0 <= self.window_100ns <= max_window()
    }

    /// An empty buffer keeping `window_seconds` of packets.
    pub fn new(window_seconds: u32) -> (r: Self)
        ensures
            r.wf(),
            r@ == Seq::<EncodedPacket>::empty(),
            r.window() == window_seconds as int * 10_000_000,
    {
        RingBuffer { packets: VecDeque::new(), window_100ns: window_seconds as i64 * 10_000_000 }
    }

    /// Appends a packet, then evicts whatever fell out of the window,
    /// cutting only at a video keyframe. The packet's timestamp minus the
    /// window must be representable.
    pub fn push(&mut self, packet: EncodedPacket)
        requires
            old(self).wf(),
            packet.pts_100ns - old(self).window() >= i64::MIN,
        ensures
            final(self).wf(),
            final(self).window() == old(self).window(),
            final(self)@ == evicted(old(self)@.push(packet), old(self).window()),
    {
        self.packets.push_back(packet);
        self.evict_old();
    }

    fn evict_old(&mut self)
        requires
            old(self).wf(),
            old(self)@.len() > 0,
            old(self)@.last().pts_100ns - old(self).window() >= i64::MIN,
        ensures
            final(self).wf(),
            final(self).window() == old(self).window(),
            final(self)@ == evicted(old(self)@, old(self).window()),
    {
        let ghost s = self@;
        let n = self.packets.len();
        let newest = self.packets[n - 1].pts_100ns;
        let cutoff = newest - self.window_100ns;
        let mut boundary: usize = 0;
        let mut i: usize = 0;
        while i < n && self.packets[i].pts_100ns <= cutoff
            invariant
                0 <= i <= n,
                n == s.len(),
                self@ == s,
                boundary == last_key_before(s, i as int),
                forall|j: int| 0 <= j < i ==> (#[trigger] s[j]).pts_100ns <= cutoff,
            decreases n - i,
        {
            let p = &self.packets[i];
            if p.stream == StreamKind::Video && p.is_keyframe {
                boundary = i;
            }
            i += 1;
        }
        proof {
            lemma_first_after(s, cutoff as int, i as int);
            lemma_last_key_before(s, i as int);
        }
        let mut k: usize = 0;
        while k < boundary
            invariant
                0 <= k <= boundary <= n,
                n == s.len(),
                self.window_100ns == old(self).window_100ns,
                self@ == s.skip(k as int),
            decreases boundary - k,
        {
            let _ = self.packets.pop_front();
            assert(s.skip(k as int).subrange(1, s.skip(k as int).len() as int) == s.skip(k + 1));
            k += 1;
        }
    }

    /// A copy of the buffer in presentation order; the buffer keeps
    /// running untouched.
    pub fn snapshot(&self) -> (v: Vec<EncodedPacket>)
        ensures
            v@.len() == self@.len(),
            forall|i: int| 0 <= i < self@.len() ==> same_packet(#[trigger] v@[i], self@[i]),
    {
        let mut v: Vec<EncodedPacket> = Vec::new();
        let mut i: usize = 0;
        while i < self.packets.len()
            invariant
                0 <= i <= self@.len(),
                v@.len() == i,
                forall|j: int| 0 <= j < i ==> same_packet(#[trigger] v@[j], self@[j]),
            decreases self@.len() - i,
        {
            v.push(self.packets[i].duplicate());
            i += 1;
        }
        v
    }

    /// Newest minus oldest presentation time, in 100 ns units; 0 when
    /// empty.
    pub fn buffered_duration_100ns(&self) -> (d: i128)
        ensures
            d == (if self@.len() == 0 { 0 } else { self@.last().pts_100ns - self@[0].pts_100ns }),
    {
        let n = self.packets.len();
        if n == 0 {
            0
        } else {
            self.packets[n - 1].pts_100ns as i128 - self.packets[0].pts_100ns as i128
        }
    }
}

/// Eviction removes only a prefix, never the newest packet, keeps
/// every packet presented after the cutoff, and when it removes anything
/// the buffer starts on a video keyframe.
pub proof fn law_eviction_keeps_decodable_suffix(s: Seq<EncodedPacket>, window: int)
    requires
        s.len() > 0,
        window >= 0,
    ensures
        ({
            let b = eviction_boundary(s, window);
            &&& 0 <= b < s.len()
            &&& evicted(s, window) == s.skip(b)
            &&& evicted(s, window).last() == s.last()
            &&& b > 0 ==> is_video_key(evicted(s, window)[0])
            &&& forall|j: int| 0 <= j < s.len() && s[j].pts_100ns > s.last().pts_100ns - window ==> j >= b
        }),
{
    let cutoff = s.last().pts_100ns - window;
    let stop = first_after(s, cutoff);
    lemma_first_after_props(s, cutoff);
    lemma_last_key_before(s, stop);
}

proof fn lemma_first_after_props(s: Seq<EncodedPacket>, cutoff: int)
    ensures
        0 <= first_after(s, cutoff) <= s.len(),
        forall|j: int| 0 <= j < first_after(s, cutoff) ==> (#[trigger] s[j]).pts_100ns <= cutoff,
    decreases s.len(),
{
    if s.len() > 0 && s[0].pts_100ns <= cutoff {
        lemma_first_after_props(s.drop_first(), cutoff);
        assert forall|j: int| 0 <= j < first_after(s, cutoff) implies (#[trigger] s[j]).pts_100ns <= cutoff by {
            if j > 0 {
                assert(s[j] == s.drop_first()[j - 1]);
            }
        }
    }
}

/// Pushing a packet leaves it as the newest packet of the buffer.
pub proof fn law_push_keeps_newest(s: Seq<EncodedPacket>, p: EncodedPacket, window: int)
    requires
        window >= 0,
    ensures
        evicted(s.push(p), window).len() > 0,
        evicted(s.push(p), window).last() == p,
{
    law_eviction_keeps_decodable_suffix(s.push(p), window);
}

/// The codec of the first video packet of a clip about to be saved, or
/// why there is nothing to save.
pub fn replay_clip_codec(packets: &Vec<EncodedPacket>) -> (r: Result<VideoCodec, BrailError>)
    ensures
        packets@.len() == 0 ==> is_internal_error(r, "replay buffer is empty (nothing to save yet)"@),
        packets@.len() > 0 && (forall|j: int| 0 <= j < packets@.len() ==> (#[trigger] packets@[j]).stream != StreamKind::Video)
            ==> is_internal_error(r, "replay buffer has no video packets"@),
        r matches Ok(c) ==> exists|i: int| 0 <= i < packets@.len() && (#[trigger] packets@[i]).stream == StreamKind::Video
            && packets@[i].codec == c && forall|j: int| 0 <= j < i ==> (#[trigger] packets@[j]).stream != StreamKind::Video,
        (exists|i: int| 0 <= i < packets@.len() && (#[trigger] packets@[i]).stream == StreamKind::Video) ==> r is Ok,
{
    if packets.len() == 0 {
        return Err(BrailError::Internal(String::from_str("replay buffer is empty (nothing to save yet)")));
    }
    let mut i: usize = 0;
    while i < packets.len()
        invariant
            0 <= i <= packets@.len(),
            forall|j: int| 0 <= j < i ==> (#[trigger] packets@[j]).stream != StreamKind::Video,
        decreases packets@.len() - i,
    {
        if packets[i].stream == StreamKind::Video {
            return Ok(packets[i].codec);
        }
        i += 1;
    }
    Err(BrailError::Internal(String::from_str("replay buffer has no video packets")))
}

} // verus!
