//! The self-tuner: reacts to resource pressure sustained over fifteen
//! consecutive once-a-second samples, so a brief harmless spike (another
//! application launching) is never acted on. Like the bitrate ladder it
//! only recommends; the caller decides and always tells the user.

use std::collections::VecDeque;

use vstd::prelude::*;

use crate::stats::ResourceStats;

verus! {

/// What the self-tuner recommends changing.
#[derive(Debug, Clone, Copy, PartialEq, Eq, Structural)]
pub enum TuningAction {
    NoAction,
    SuggestLowerEncoderPreset,
    SuggestLowerResolution,
    SuggestDisableInstantReplay,
    WarnRamCritical,
}

/// Consecutive samples a condition must hold to count as sustained.
pub open spec fn sustained_samples() -> int {
    15
}

/// The process uses more than `percent` percent of the system's RAM.
/// (With no RAM reported, any use at all counts.)
pub open spec fn ram_above(s: ResourceStats, total_ram_mb: u64, percent: int) -> bool {
    s.process_ram_mb_x100 > percent * total_ram_mb
}

/// Every sample used more than 85% of RAM.
pub open spec fn all_ram_high(h: Seq<ResourceStats>, total_ram_mb: u64) -> bool {
    forall|i: int| 0 <= i < h.len() ==> ram_above(#[trigger] h[i], total_ram_mb, 85)
}

/// Every sample used more than 90% CPU.
pub open spec fn all_cpu_high(h: Seq<ResourceStats>) -> bool {
    forall|i: int| 0 <= i < h.len() ==> (#[trigger] h[i]).process_cpu_percent_x100 > 9000
}

/// The GPU's video encoder is above 95%; an unmeasured value is not.
pub open spec fn gpu_encode_high(s: ResourceStats) -> bool {
    match s.gpu_video_encode_percent_x100 {
        Some(p) => p > 9500,
        None => false,
    }
}

/// Every sample had the GPU's video encoder above 95%.
pub open spec fn all_gpu_high(h: Seq<ResourceStats>) -> bool {
    forall|i: int| 0 <= i < h.len() ==> gpu_encode_high(#[trigger] h[i])
}

/// The window after a sample: the newest fifteen.
pub open spec fn next_window(h: Seq<ResourceStats>, s: ResourceStats) -> Seq<ResourceStats> {
    let p = h.push(s);
    if p.len() > sustained_samples() { p.drop_first() } else { p }
}

/// The recommendation for the window `h` ending in sample `s`: critical
/// memory at once, otherwise only a condition held by every sample of a
/// full window, memory first, then CPU, then the GPU encoder.
pub open spec fn tuning_decision(h: Seq<ResourceStats>, s: ResourceStats, total_ram_mb: u64) -> TuningAction {
    if ram_above(s, total_ram_mb, 95) {
        TuningAction::WarnRamCritical
    } else if h.len() < sustained_samples() {
        TuningAction::NoAction
    } else if all_ram_high(h, total_ram_mb) {
        TuningAction::SuggestDisableInstantReplay
    } else if all_cpu_high(h) {
        TuningAction::SuggestLowerEncoderPreset
    } else if all_gpu_high(h) {
        TuningAction::SuggestLowerResolution
    } else {
        TuningAction::NoAction
    }
}

pub struct SelfTuner {
    history: VecDeque<ResourceStats>,
    max_history: usize,
    total_ram_mb: u64,
}

fn ram_above_exec(s: &ResourceStats, total_ram_mb: u64, percent: u64) -> (b: bool)
    requires
        percent <= 100,
    ensures
        b == ram_above(*s, total_ram_mb, percent as int),
{
    assert(percent * total_ram_mb <= 100 * 0xFFFF_FFFF_FFFF_FFFFu64) by (nonlinear_arith)
        requires
            percent <= 100,
            total_ram_mb <= 0xFFFF_FFFF_FFFF_FFFFu64,
    ;
    s.process_ram_mb_x100 as u128 > percent as u128 * total_ram_mb as u128
}

impl SelfTuner {
    /// The samples in the window, oldest first.
    pub closed spec fn window(&self) -> Seq<ResourceStats> {
        self.history@
    }

    /// The system's RAM, in MB, that usage is measured against.
    pub closed spec fn total_ram(&self) -> u64 {
        self.total_ram_mb
    }

    /// The window holds at most fifteen samples.
    pub closed spec fn wf(&self) -> bool {
        &&& self.max_history == 15
        &&& self.history@.len() <= 15
    }

    pub fn new(total_ram_mb: u64) -> (t: Self)
        ensures
            t.wf(),
            t.window() == Seq::<ResourceStats>::empty(),
            t.total_ram() == total_ram_mb,
    {
        SelfTuner { history: VecDeque::new(), max_history: 15, total_ram_mb }
    }

    fn all_ram_high_exec(&self) -> (b: bool)
        ensures
            b == all_ram_high(self.history@, self.total_ram_mb),
    {
        let mut i: usize = 0;
        while i < self.history.len()
            invariant
                0 <= i <= self.history@.len(),
                forall|k: int| 0 <= k < i ==> ram_above(#[trigger] self.history@[k], self.total_ram_mb, 85),
            decreases self.history@.len() - i,
        {
            if !ram_above_exec(&self.history[i], self.total_ram_mb, 85) {
                return false;
            }
            i += 1;
        }
        true
    }

    fn all_cpu_high_exec(&self) -> (b: bool)
        ensures
            b == all_cpu_high(self.history@),
    {
        let mut i: usize = 0;
        while i < self.history.len()
            invariant
                0 <= i <= self.history@.len(),
                forall|k: int| 0 <= k < i ==> (#[trigger] self.history@[k]).process_cpu_percent_x100 > 9000,
            decreases self.history@.len() - i,
        {
            if self.history[i].process_cpu_percent_x100 <= 9000 {
                return false;
            }
            i += 1;
        }
        true
    }

    fn all_gpu_high_exec(&self) -> (b: bool)
        ensures
            b == all_gpu_high(self.history@),
    {
        let mut i: usize = 0;
        while i < self.history.len()
            invariant
                0 <= i <= self.history@.len(),
                forall|k: int| 0 <= k < i ==> gpu_encode_high(#[trigger] self.history@[k]),
            decreases self.history@.len() - i,
        {
            let high = match self.history[i].gpu_video_encode_percent_x100 {
                Some(p) => p > 9500,
                None => false,
            };
            if !high {
                assert(!gpu_encode_high(self.history@[i as int]));
                return false;
            }
            i += 1;
        }
        true
    }

    /// Feeds one sample and returns the recommendation for the window
    /// ending in it.
    pub fn record_sample(&mut self, sample: ResourceStats) -> (a: TuningAction)
        requires
            old(self).wf(),
        ensures
            final(self).wf(),
            final(self).total_ram() == old(self).total_ram(),
            final(self).window() == next_window(old(self).window(), sample),
            a == tuning_decision(final(self).window(), sample, final(self).total_ram()),
    {
        self.history.push_back(sample);
        if self.history.len() > self.max_history {
            let _ = self.history.pop_front();
        }
        assert(self.history@ == next_window(old(self).history@, sample));
        if ram_above_exec(&sample, self.total_ram_mb, 95) {
            return TuningAction::WarnRamCritical;
        }
        if self.history.len() < 15 {
            return TuningAction::NoAction;
        }
        if self.all_ram_high_exec() {
            return TuningAction::SuggestDisableInstantReplay;
        }
        if self.all_cpu_high_exec() {
            return TuningAction::SuggestLowerEncoderPreset;
        }
        if self.all_gpu_high_exec() {
            return TuningAction::SuggestLowerResolution;
        }
        TuningAction::NoAction
    }
}

/// A suggestion is only made once its condition has held for fifteen
/// consecutive samples: the window is full and every sample in it, the
/// newest included, shows the pressure.
pub proof fn law_suggestions_need_sustained_pressure(h: Seq<ResourceStats>, s: ResourceStats, total_ram_mb: u64)
    requires
        h.len() > 0,
        h.last() == s,
    ensures
        tuning_decision(h, s, total_ram_mb) == TuningAction::SuggestDisableInstantReplay ==> h.len()
            >= sustained_samples() && all_ram_high(h, total_ram_mb),
        tuning_decision(h, s, total_ram_mb) == TuningAction::SuggestLowerEncoderPreset ==> h.len()
            >= sustained_samples() && all_cpu_high(h),
        tuning_decision(h, s, total_ram_mb) == TuningAction::SuggestLowerResolution ==> h.len()
            >= sustained_samples() && all_gpu_high(h),
        tuning_decision(h, s, total_ram_mb) != TuningAction::NoAction
            && tuning_decision(h, s, total_ram_mb) != TuningAction::WarnRamCritical ==> ram_above(s, total_ram_mb, 85)
            || s.process_cpu_percent_x100 > 9000 || gpu_encode_high(s),
{
    let i = h.len() - 1;
    assert(h[i] == s);
}

/// One sample without pressure in the window is enough to hold back every
/// suggestion until a full window of pressure has built up again.
pub proof fn law_one_calm_sample_resets(h: Seq<ResourceStats>, s: ResourceStats, total_ram_mb: u64, k: int)
    requires
        0 <= k < h.len(),
        !ram_above(h[k], total_ram_mb, 85),
        h[k].process_cpu_percent_x100 <= 9000,
        !gpu_encode_high(h[k]),
        !ram_above(s, total_ram_mb, 95),
    ensures
        tuning_decision(h, s, total_ram_mb) == TuningAction::NoAction,
{
}

/// The window never holds more than fifteen samples and always ends with
/// the newest.
pub proof fn law_window_is_bounded(h: Seq<ResourceStats>, s: ResourceStats)
    requires
        h.len() <= sustained_samples(),
    ensures
        next_window(h, s).len() <= sustained_samples(),
        next_window(h, s).last() == s,
{
}

} // verus!
