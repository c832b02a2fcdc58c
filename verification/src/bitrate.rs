//! Adaptive streaming bitrate: a degradation ladder walked down quickly
//! when upload can't keep up and climbed back slowly once it recovers.

use vstd::prelude::*;

verus! {

/// The ladder, from full quality down. Each rung is tried before the next.
#[derive(Debug, Clone, Copy, PartialEq, Eq, Structural)]
pub enum DegradationStep {
    NoDegradation,
    ReduceBitrate25Percent,
    ReduceBitrate50Percent,
    HalveFrameRate,
    DropToNextResolutionDown,
}

pub open spec fn step_down_spec(s: DegradationStep) -> DegradationStep {
    match s {
        DegradationStep::NoDegradation => DegradationStep::ReduceBitrate25Percent,
        DegradationStep::ReduceBitrate25Percent => DegradationStep::ReduceBitrate50Percent,
        DegradationStep::ReduceBitrate50Percent => DegradationStep::HalveFrameRate,
        DegradationStep::HalveFrameRate => DegradationStep::DropToNextResolutionDown,
        DegradationStep::DropToNextResolutionDown => DegradationStep::DropToNextResolutionDown,
    }
}

pub open spec fn step_up_spec(s: DegradationStep) -> DegradationStep {
    match s {
        DegradationStep::DropToNextResolutionDown => DegradationStep::HalveFrameRate,
        DegradationStep::HalveFrameRate => DegradationStep::ReduceBitrate50Percent,
        DegradationStep::ReduceBitrate50Percent => DegradationStep::ReduceBitrate25Percent,
        DegradationStep::ReduceBitrate25Percent => DegradationStep::NoDegradation,
        DegradationStep::NoDegradation => DegradationStep::NoDegradation,
    }
}

/// The encoder bitrate on a rung: the target, 75% of it, or 50% of it
/// (the frame-rate and resolution rungs stay at the 50% floor).
pub open spec fn bitrate_for(target: u32, s: DegradationStep) -> u32 {
    match s {
        DegradationStep::NoDegradation => target,
        DegradationStep::ReduceBitrate25Percent => (target * 3 / 4) as u32,
        _ => (target / 2) as u32,
    }
}

/// One bandwidth measurement: when (milliseconds on a monotonic clock),
/// the measured upload in bits per second, and frames dropped since the
/// previous measurement.
#[derive(Debug, Clone, Copy, PartialEq, Eq, Structural)]
pub struct BandwidthSample {
    pub at_ms: u64,
    pub upload_bps: u64,
    pub dropped_frames: u64,
}

/// Samples are kept for this long.
pub open spec fn sample_window_ms() -> int {
    10_000
}

/// Minimum time between two degradations.
pub open spec fn degrade_hold_ms() -> int {
    5_000
}

/// Minimum time before climbing back up.
pub open spec fn recovery_hold_ms() -> int {
    20_000
}

/// Elapsed milliseconds from `earlier` to `now`, zero if the clock is
/// behind.
pub open spec fn elapsed(now: u64, earlier: u64) -> int {
    if now >= earlier { now - earlier } else { 0 }
}

/// The samples of `w` taken within the window before `now`, in order.
pub open spec fn recent(w: Seq<BandwidthSample>, now: u64) -> Seq<BandwidthSample>
    decreases w.len(),
{
    if w.len() == 0 {
        w
    } else {
        let r = recent(w.drop_last(), now);
        if elapsed(now, w.last().at_ms) <= sample_window_ms() {
            r.push(w.last())
        } else {
            r
        }
    }
}

pub open spec fn total_dropped(w: Seq<BandwidthSample>) -> int
    decreases w.len(),
{
    if w.len() == 0 {
        0
    } else {
        total_dropped(w.drop_last()) + w.last().dropped_frames
    }
}

/// More than 2 frames dropped per sample on average, or every sample's
/// upload under 90% of the current bitrate.
pub open spec fn struggling(w: Seq<BandwidthSample>, current_kbps: u32) -> bool {
    ||| total_dropped(w) > 2 * w.len()
    ||| forall|i: int| 0 <= i < w.len() ==> (#[trigger] w[i]).upload_bps * 10 < current_kbps * 9000
}

/// At least five samples, each above 120% of the target with no drops.
pub open spec fn recovered(w: Seq<BandwidthSample>, target_kbps: u32) -> bool {
    &&& w.len() >= 5
    &&& forall|i: int| 0 <= i < w.len() ==> (#[trigger] w[i]).upload_bps * 10 > target_kbps * 12000 && w[i].dropped_frames == 0
}

/// The controller's state.
pub struct BitrateState {
    pub target_kbps: u32,
    pub step: DegradationStep,
    pub window: Seq<BandwidthSample>,
    pub last_step_change_ms: u64,
}

/// The state after one measurement, and the new bitrate when it changed.
pub open spec fn record_effect(s: BitrateState, sample: BandwidthSample) -> (BitrateState, Option<u32>) {
    let now = sample.at_ms;
    let w = recent(s.window.push(sample), now);
    let since = elapsed(now, s.last_step_change_ms);
    if struggling(w, bitrate_for(s.target_kbps, s.step)) && since >= degrade_hold_ms() {
        let step = step_down_spec(s.step);
        (BitrateState { target_kbps: s.target_kbps, step, window: w, last_step_change_ms: now },
            Some(bitrate_for(s.target_kbps, step)))
    } else if recovered(w, s.target_kbps) && s.step != DegradationStep::NoDegradation && since >= recovery_hold_ms() {
        let step = step_up_spec(s.step);
        (BitrateState { target_kbps: s.target_kbps, step, window: w, last_step_change_ms: now },
            Some(bitrate_for(s.target_kbps, step)))
    } else {
        (BitrateState { target_kbps: s.target_kbps, step: s.step, window: w, last_step_change_ms: s.last_step_change_ms },
            None)
    }
}

/// Walks the degradation ladder from upload-bandwidth measurements. It
/// only recommends: the caller applies the returned bitrate.
pub struct AdaptiveBitrateController {
    target_bitrate_kbps: u32,
    current_bitrate_kbps: u32,
    current_step: DegradationStep,
    window: Vec<BandwidthSample>,
    last_step_change_ms: u64,
}

impl View for AdaptiveBitrateController {
    type V = BitrateState;

    closed spec fn view(&self) -> BitrateState {
        BitrateState {
            target_kbps: self.target_bitrate_kbps,
            step: self.current_step,
            window: self.window@,
            last_step_change_ms: self.last_step_change_ms,
        }
    }
}

fn step_down(s: DegradationStep) -> (r: DegradationStep)
    ensures
        r == step_down_spec(s),
{
    match s {
        DegradationStep::NoDegradation => DegradationStep::ReduceBitrate25Percent,
        DegradationStep::ReduceBitrate25Percent => DegradationStep::ReduceBitrate50Percent,
        DegradationStep::ReduceBitrate50Percent => DegradationStep::HalveFrameRate,
        DegradationStep::HalveFrameRate => DegradationStep::DropToNextResolutionDown,
        DegradationStep::DropToNextResolutionDown => DegradationStep::DropToNextResolutionDown,
    }
}

fn step_up(s: DegradationStep) -> (r: DegradationStep)
    ensures
        r == step_up_spec(s),
{
    match s {
        DegradationStep::DropToNextResolutionDown => DegradationStep::HalveFrameRate,
        DegradationStep::HalveFrameRate => DegradationStep::ReduceBitrate50Percent,
        DegradationStep::ReduceBitrate50Percent => DegradationStep::ReduceBitrate25Percent,
        DegradationStep::ReduceBitrate25Percent => DegradationStep::NoDegradation,
        DegradationStep::NoDegradation => DegradationStep::NoDegradation,
    }
}

fn recompute_bitrate(target: u32, s: DegradationStep) -> (r: u32)
    ensures
        r == bitrate_for(target, s),
{
    match s {
        DegradationStep::NoDegradation => target,
        DegradationStep::ReduceBitrate25Percent => ((target as u64 * 3) / 4) as u32,
        _ => target / 2,
    }
}

impl AdaptiveBitrateController {
    /// The bitrate currently asked of the encoder always matches the rung.
    pub closed spec fn wf(&self) -> bool {
        self.current_bitrate_kbps == bitrate_for(self.target_bitrate_kbps, self.current_step)
    }

    /// A controller at full quality, created at `now_ms`.
    pub fn new(target_bitrate_kbps: u32, now_ms: u64) -> (c: Self)
        ensures
            c.wf(),
            c@.target_kbps == target_bitrate_kbps,
            c@.step == DegradationStep::NoDegradation,
            c@.window == Seq::<BandwidthSample>::empty(),
            c@.last_step_change_ms == now_ms,
    {
        AdaptiveBitrateController {
            target_bitrate_kbps,
            current_bitrate_kbps: target_bitrate_kbps,
            current_step: DegradationStep::NoDegradation,
            window: Vec::new(),
            last_step_change_ms: now_ms,
        }
    }

    /// Feeds one measurement, taken at `now_ms`, and returns the new
    /// encoder bitrate when the controller changed rung.
    pub fn record_sample(&mut self, now_ms: u64, upload_bps: u64, dropped_frames_this_tick: u64) -> (r: Option<u32>)
        requires
            old(self).wf(),
        ensures
            final(self).wf(),
            (final(self)@, r) == record_effect(old(self)@,
                (BandwidthSample { at_ms: now_ms, upload_bps, dropped_frames: dropped_frames_this_tick })),
    {
        let sample = BandwidthSample { at_ms: now_ms, upload_bps, dropped_frames: dropped_frames_this_tick };
        self.window.push(sample);
        let ghost pushed = self.window@;
        let mut kept: Vec<BandwidthSample> = Vec::new();
        let mut total: u128 = 0;
        let mut all_below = true;
        let mut all_good = true;
        let current = self.current_bitrate_kbps;
        let target = self.target_bitrate_kbps;
        let mut i: usize = 0;
        while i < self.window.len()
            invariant
                0 <= i <= pushed.len(),
                self.window@ == pushed,
                kept@ == recent(pushed.take(i as int), now_ms),
                kept@.len() <= i,
                total == total_dropped(kept@),
                total <= kept@.len() * 0xFFFF_FFFF_FFFF_FFFFu64,
                all_below == forall|k: int| 0 <= k < kept@.len() ==> (#[trigger] kept@[k]).upload_bps * 10 < current * 9000,
                all_good == forall|k: int| 0 <= k < kept@.len() ==> (#[trigger] kept@[k]).upload_bps * 10 > target * 12000 && kept@[k].dropped_frames == 0,
            decreases pushed.len() - i,
        {
            let s = self.window[i];
            assert(pushed.take(i + 1).drop_last() == pushed.take(i as int));
            let age = if now_ms >= s.at_ms { now_ms - s.at_ms } else { 0 };
            if age <= 10_000 {
                let ghost before = kept@;
                let ghost below_before = all_below;
                let ghost good_before = all_good;
                kept.push(s);
                assert(kept@.drop_last() == before);
                total = total + s.dropped_frames as u128;
                let below = (s.upload_bps as u128) * 10 < (current as u128) * 9000;
                let good = (s.upload_bps as u128) * 10 > (target as u128) * 12000 && s.dropped_frames == 0;
                all_below = all_below && below;
                all_good = all_good && good;
                proof {
                    let n = before.len() as int;
                    assert(kept@[n] == s);
                    assert(forall|k: int| 0 <= k < n ==> kept@[k] == before[k]);
                    if !below_before {
                        let k = choose|k: int| 0 <= k < n && !((#[trigger] before[k]).upload_bps * 10 < current * 9000);
                        assert(kept@[k] == before[k]);
                    }
                    if !good_before {
                        let k = choose|k: int| 0 <= k < n && !((#[trigger] before[k]).upload_bps * 10 > target * 12000 && before[k].dropped_frames == 0);
                        assert(kept@[k] == before[k]);
                    }
                }
            }
            i += 1;
        }
        assert(pushed.take(pushed.len() as int) == pushed);
        self.window = kept;
        let count = self.window.len() as u128;
        let is_struggling = total > 2 * count || all_below;
        let since = if now_ms >= self.last_step_change_ms { now_ms - self.last_step_change_ms } else { 0 };
        if is_struggling && since >= 5_000 {
            self.current_step = step_down(self.current_step);
            self.current_bitrate_kbps = recompute_bitrate(self.target_bitrate_kbps, self.current_step);
            self.last_step_change_ms = now_ms;
            return Some(self.current_bitrate_kbps);
        }
        let is_recovered = self.window.len() >= 5 && all_good;
        if is_recovered && self.current_step != DegradationStep::NoDegradation && since >= 20_000 {
            self.current_step = step_up(self.current_step);
            self.current_bitrate_kbps = recompute_bitrate(self.target_bitrate_kbps, self.current_step);
            self.last_step_change_ms = now_ms;
            return Some(self.current_bitrate_kbps);
        }
        None
    }

    pub fn current_step(&self) -> (s: DegradationStep)
        ensures
            s == self@.step,
    {
        self.current_step
    }

    pub fn current_bitrate_kbps(&self) -> (b: u32)
        requires
            self.wf(),
        ensures
            b == bitrate_for(self@.target_kbps, self@.step),
    {
        self.current_bitrate_kbps
    }
}

/// Climbing one rung undoes descending one, everywhere but the
/// bottom; descending undoes climbing everywhere but the top.
pub proof fn law_step_up_undoes_step_down(s: DegradationStep)
    ensures
        s != DegradationStep::DropToNextResolutionDown ==> step_up_spec(step_down_spec(s)) == s,
        s != DegradationStep::NoDegradation ==> step_down_spec(step_up_spec(s)) == s,
{
}

/// The bitrate asked of the encoder never exceeds the target and
/// never falls below half of it, and descending the ladder never raises it.
pub proof fn law_bitrate_bounds(target: u32, s: DegradationStep)
    ensures
        target / 2 <= bitrate_for(target, s) <= target,
        bitrate_for(target, step_down_spec(s)) <= bitrate_for(target, s),
{
}

/// A change of rung only happens after the hold time since the last
/// change, and a step back up never happens while frames are dropping.
pub proof fn law_changes_respect_hysteresis(st: BitrateState, sample: BandwidthSample)
    ensures
        ({
            let (next, r) = record_effect(st, sample);
            &&& r is Some ==> elapsed(sample.at_ms, st.last_step_change_ms) >= degrade_hold_ms()
            &&& r is Some && next.step == step_up_spec(st.step) ==> sample.dropped_frames == 0
            &&& r is None ==> next.step == st.step
        }),
{
    let now = sample.at_ms;
    let w = recent(st.window.push(sample), now);
    lemma_recent_keeps_last(st.window, sample);
    if recovered(w, st.target_kbps) {
        assert(w[w.len() - 1].dropped_frames == 0);
    }
}

/// While every measurement in the window shows upload sustaining at least
/// 90% of the bitrate currently asked of the encoder, and frames drop at
/// no more than two per measurement, a measurement never lowers the rung
/// or the bitrate: the controller holds, or climbs back.
pub proof fn law_sustained_upload_never_steps_down(st: BitrateState, sample: BandwidthSample)
    requires
        forall|i: int| 0 <= i < recent(st.window.push(sample), sample.at_ms).len()
            ==> (#[trigger] recent(st.window.push(sample), sample.at_ms)[i]).upload_bps * 10
            >= bitrate_for(st.target_kbps, st.step) * 9000,
        total_dropped(recent(st.window.push(sample), sample.at_ms)) <= 2 * recent(st.window.push(sample), sample.at_ms).len(),
    ensures
        ({
            let (next, r) = record_effect(st, sample);
            &&& next.step == st.step || next.step == step_up_spec(st.step)
            &&& r matches Some(b) ==> b >= bitrate_for(st.target_kbps, st.step)
        }),
{
    let w = recent(st.window.push(sample), sample.at_ms);
    lemma_recent_keeps_last(st.window, sample);
    let last = w.len() - 1;
    assert(w[last].upload_bps * 10 >= bitrate_for(st.target_kbps, st.step) * 9000);
    assert(!struggling(w, bitrate_for(st.target_kbps, st.step)));
}

proof fn lemma_recent_keeps_last(w: Seq<BandwidthSample>, sample: BandwidthSample)
    ensures
        recent(w.push(sample), sample.at_ms).len() > 0,
        recent(w.push(sample), sample.at_ms).last() == sample,
{
    assert(w.push(sample).drop_last() == w);
}

} // verus!
