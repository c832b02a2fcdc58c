//! Benchmark mode: a passive accumulator fed with the real measurements
//! of a real recording or stream, reduced to a diagnostic report. Every
//! figure is a measurement; one the platform could not provide stays
//! `None` rather than reading as zero. Quantities are in hundredths of
//! their unit, and means are rounded down to a hundredth.

use vstd::prelude::*;

use crate::stats::ResourceStats;
use crate::text::{decimal, push_decimal, round_div, round_div_exec};

verus! {

/// The diagnostic report of a run.
pub struct BenchmarkReport {
    pub duration_ms: u64,
    pub idle_ram_mb_x100: u64,
    pub peak_ram_mb_x100: u64,
    pub mean_ram_mb_x100: u64,
    /// Last RAM sample minus the first: growth that keeps climbing over
    /// longer runs is the sign of a leak.
    pub ram_drift_mb_x100: i128,
    pub mean_cpu_percent_x100: u64,
    pub peak_cpu_percent_x100: u64,
    pub mean_gpu_percent_x100: Option<u64>,
    pub mean_capture_fps_x100: u64,
    pub target_fps: u32,
    pub dropped_frames: u64,
    pub mean_encode_latency_ms_x100: u64,
    pub mean_disk_write_mb_per_sec_x100: Option<u64>,
    pub mean_upload_kbps_x100: Option<u64>,
    pub samples_taken: usize,
    /// A one-line plain-language verdict.
    pub summary: String,
}

/// The measurements a run has collected.
pub struct RunSamples {
    pub started_ms: u64,
    pub duration_ms: u64,
    pub idle_ram_mb_x100: u64,
    pub target_fps: u32,
    pub ram: Seq<u64>,
    pub cpu: Seq<u64>,
    pub gpu: Seq<u64>,
    pub capture_fps: Seq<u64>,
    pub encode_latency: Seq<u64>,
    pub disk: Seq<u64>,
    pub upload: Seq<u64>,
    pub dropped_start: u64,
    pub dropped_latest: u64,
}

pub open spec fn seq_sum(s: Seq<u64>) -> int
    decreases s.len(),
{
    if s.len() == 0 { 0 } else { seq_sum(s.drop_last()) + s.last() }
}

/// The largest value, or 0.
pub open spec fn seq_peak(s: Seq<u64>) -> int
    decreases s.len(),
{
    if s.len() == 0 {
        0
    } else {
        let p = seq_peak(s.drop_last());
        if s.last() > p { s.last() as int } else { p }
    }
}

/// The reported peak of a run's samples is the largest sample: no sample
/// exceeds it and, unless the run recorded nothing (peak 0), it is one of
/// them. `BenchmarkRun::finish` reports this peak for memory and CPU.
pub proof fn law_peak_is_the_largest_sample(s: Seq<u64>)
    ensures
        forall|i: int| 0 <= i < s.len() ==> s[i] <= seq_peak(s),
        s.len() > 0 ==> exists|i: int| 0 <= i < s.len() && seq_peak(s) == s[i],
        s.len() == 0 ==> seq_peak(s) == 0,
    decreases s.len(),
{
    if s.len() > 0 {
        let d = s.drop_last();
        law_peak_is_the_largest_sample(d);
        assert forall|i: int| 0 <= i < s.len() implies s[i] <= seq_peak(s) by {
            if i < d.len() {
                assert(s[i] == d[i]);
            }
        }
        if s.last() > seq_peak(d) {
            assert(seq_peak(s) == s[s.len() - 1]);
        } else if d.len() > 0 {
            let k = choose|k: int| 0 <= k < d.len() && seq_peak(d) == d[k];
            assert(seq_peak(s) == s[k]);
        } else {
            assert(seq_peak(s) == s[0]);
        }
    }
}

/// The mean rounded down; 0 for no samples.
pub open spec fn mean_floor(s: Seq<u64>) -> int {
    if s.len() == 0 { 0 } else { seq_sum(s) / (s.len() as int) }
}

/// The mean of hundredths as a whole number, rounded as `{:.0}` rounds.
pub open spec fn mean_whole(s: Seq<u64>) -> int {
    if s.len() == 0 { 0 } else { round_div(seq_sum(s), 100 * (s.len() as int)) }
}

/// Capture fell short: the mean frame rate is under 95% of the target.
pub open spec fn fps_short(fps: Seq<u64>, target_fps: int) -> bool {
    fps.len() == 0 || seq_sum(fps) < 95 * target_fps * fps.len()
}

/// Whether the target frame rate held, when there is one.
pub open spec fn fps_part(r: RunSamples) -> Seq<char> {
    if r.target_fps > 0 {
        if fps_short(r.capture_fps, r.target_fps as int) {
            ", captured "@ + decimal(mean_whole(r.capture_fps) as nat) + " of "@ + decimal(r.target_fps as nat) + " FPS"@
        } else {
            ", held "@ + decimal(r.target_fps as nat) + " FPS"@
        }
    } else {
        Seq::empty()
    }
}

/// How many frames were dropped, when any were.
pub open spec fn drops_part(r: RunSamples) -> Seq<char> {
    if dropped_delta(r) > 0 { ", "@ + decimal(dropped_delta(r) as nat) + " frames dropped"@ } else { Seq::empty() }
}

/// Memory growth, when it exceeds 25 MB; smaller drift is ordinary
/// allocator behaviour.
pub open spec fn growth_part(r: RunSamples) -> Seq<char> {
    if ram_drift(r.ram) > 2500 {
        ", memory grew "@ + decimal(round_div(ram_drift(r.ram), 100) as nat) + " MB during the run"@
    } else {
        Seq::empty()
    }
}

/// "<RAM> MB RAM, <CPU>% CPU", then whether the target frame rate held,
/// how many frames were dropped, and memory growth of more than 25 MB,
/// each only when it applies.
pub open spec fn summary_text(r: RunSamples) -> Seq<char> {
    decimal(mean_whole(r.ram) as nat) + " MB RAM, "@ + decimal(mean_whole(r.cpu) as nat) + "% CPU"@ + fps_part(r)
        + drops_part(r) + growth_part(r)
}

/// Frames dropped during the run: growth of the running total.
pub open spec fn dropped_delta(r: RunSamples) -> int {
    if r.dropped_latest >= r.dropped_start { r.dropped_latest - r.dropped_start } else { 0 }
}

/// Last RAM sample minus the first, or 0.
pub open spec fn ram_drift(ram: Seq<u64>) -> int {
    if ram.len() == 0 { 0 } else { ram.last() - ram[0] }
}

pub open spec fn optional_mean(s: Seq<u64>) -> Option<u64> {
    if s.len() == 0 { None } else { Some(mean_floor(s) as u64) }
}

/// Collects samples over a fixed window; the caller runs a genuine
/// recording or stream and feeds its measurements in.
pub struct BenchmarkRun {
    started_ms: u64,
    duration_ms: u64,
    idle_ram_mb_x100: u64,
    target_fps: u32,
    ram: Vec<u64>,
    cpu: Vec<u64>,
    gpu: Vec<u64>,
    capture_fps: Vec<u64>,
    encode_latency: Vec<u64>,
    disk: Vec<u64>,
    upload: Vec<u64>,
    dropped_start: u64,
    dropped_latest: u64,
}

impl View for BenchmarkRun {
    type V = RunSamples;

    closed spec fn view(&self) -> RunSamples {
        RunSamples {
            started_ms: self.started_ms,
            duration_ms: self.duration_ms,
            idle_ram_mb_x100: self.idle_ram_mb_x100,
            target_fps: self.target_fps,
            ram: self.ram@,
            cpu: self.cpu@,
            gpu: self.gpu@,
            capture_fps: self.capture_fps@,
            encode_latency: self.encode_latency@,
            disk: self.disk@,
            upload: self.upload@,
            dropped_start: self.dropped_start,
            dropped_latest: self.dropped_latest,
        }
    }
}

/// Sum of `v`, with the bound every partial sum obeys.
fn sum_of(v: &Vec<u64>) -> (s: u128)
    ensures
        s == seq_sum(v@),
        s <= v@.len() * 0xFFFF_FFFF_FFFF_FFFFu64,
{
    let mut s: u128 = 0;
    let mut i: usize = 0;
    while i < v.len()
        invariant
            0 <= i <= v@.len(),
            s == seq_sum(v@.take(i as int)),
            s <= i * 0xFFFF_FFFF_FFFF_FFFFu64,
        decreases v@.len() - i,
    {
        assert(v@.take(i + 1).drop_last() == v@.take(i as int));
        assert(i * 0xFFFF_FFFF_FFFF_FFFFu64 + 0xFFFF_FFFF_FFFF_FFFFu64 <= 0xFFFF_FFFF_FFFF_FFFFu64 * 0xFFFF_FFFF_FFFF_FFFFu64
            + 0xFFFF_FFFF_FFFF_FFFFu64) by (nonlinear_arith)
            requires
                i < 0xFFFF_FFFF_FFFF_FFFFu64,
        ;
        s = s + v[i] as u128;
        i += 1;
    }
    assert(v@.take(v@.len() as int) == v@);
    s
}

fn peak_of(v: &Vec<u64>) -> (p: u64)
    ensures
        p == seq_peak(v@),
{
    let mut p: u64 = 0;
    let mut i: usize = 0;
    while i < v.len()
        invariant
            0 <= i <= v@.len(),
            p == seq_peak(v@.take(i as int)),
        decreases v@.len() - i,
    {
        assert(v@.take(i + 1).drop_last() == v@.take(i as int));
        if v[i] > p {
            p = v[i];
        }
        i += 1;
    }
    assert(v@.take(v@.len() as int) == v@);
    p
}

fn mean_of(v: &Vec<u64>) -> (m: u64)
    ensures
        m == mean_floor(v@),
{
    let n = v.len();
    if n == 0 {
        return 0;
    }
    let s = sum_of(v);
    assert(s / (n as u128) <= 0xFFFF_FFFF_FFFF_FFFFu64) by (nonlinear_arith)
        requires
            s <= n * 0xFFFF_FFFF_FFFF_FFFFu64,
            n >= 1,
    ;
    (s / n as u128) as u64
}

fn optional_mean_of(v: &Vec<u64>) -> (m: Option<u64>)
    ensures
        m == optional_mean(v@),
{
    if v.len() == 0 {
        None
    } else {
        Some(mean_of(v))
    }
}

/// Appends the whole-number mean of hundredths.
fn push_mean_whole(s: &mut String, v: &Vec<u64>)
    ensures
        final(s)@ == old(s)@ + decimal(mean_whole(v@) as nat),
{
    let n = v.len();
    if n == 0 {
        push_decimal(s, 0);
        return;
    }
    let total = sum_of(v);
    let d: u128 = 100 * n as u128;
    let q = round_div_exec(total, d);
    assert(total / d <= 0xFFFF_FFFF_FFFF_FFFFu64 / 100) by (nonlinear_arith)
        requires
            total <= n * 0xFFFF_FFFF_FFFF_FFFFu64,
            d == 100 * n,
            n >= 1,
    ;
    push_decimal(s, q as u64);
}

impl BenchmarkRun {
    /// Starts a run at `now_ms` lasting `duration_ms`. The idle RAM is
    /// the baseline, measured before any capture or encoding starts.
    pub fn start(idle_ram_mb_x100: u64, target_fps: u32, duration_ms: u64, now_ms: u64) -> (r: Self)
        ensures
            r@.started_ms == now_ms,
            r@.duration_ms == duration_ms,
            r@.idle_ram_mb_x100 == idle_ram_mb_x100,
            r@.target_fps == target_fps,
            r@.ram.len() == 0 && r@.cpu.len() == 0 && r@.gpu.len() == 0 && r@.capture_fps.len() == 0,
            r@.encode_latency.len() == 0 && r@.disk.len() == 0 && r@.upload.len() == 0,
            r@.dropped_start == 0 && r@.dropped_latest == 0,
    {
        BenchmarkRun {
            started_ms: now_ms,
            duration_ms,
            idle_ram_mb_x100,
            target_fps,
            ram: Vec::new(),
            cpu: Vec::new(),
            gpu: Vec::new(),
            capture_fps: Vec::new(),
            encode_latency: Vec::new(),
            disk: Vec::new(),
            upload: Vec::new(),
            dropped_start: 0,
            dropped_latest: 0,
        }
    }

    /// Records one sample. The dropped-frame figure is the pipeline's
    /// running total; the first sample sets the baseline it is counted
    /// from.
    pub fn record(
        &mut self,
        resources: ResourceStats,
        capture_fps_x100: u64,
        encode_latency_ms_x100: u64,
        dropped_frames_total: u64,
        upload_kbps_x100: Option<u64>,
    )
        ensures
            final(self)@.ram == old(self)@.ram.push(resources.process_ram_mb_x100),
            final(self)@.cpu == old(self)@.cpu.push(resources.process_cpu_percent_x100),
            final(self)@.gpu == (match resources.gpu_usage_percent_x100 {
                Some(g) => old(self)@.gpu.push(g),
                None => old(self)@.gpu,
            }),
            final(self)@.disk == (match resources.disk_write_mb_per_sec_x100 {
                Some(d) => old(self)@.disk.push(d),
                None => old(self)@.disk,
            }),
            final(self)@.upload == (match upload_kbps_x100 {
                Some(u) => old(self)@.upload.push(u),
                None => old(self)@.upload,
            }),
            final(self)@.capture_fps == old(self)@.capture_fps.push(capture_fps_x100),
            final(self)@.encode_latency == old(self)@.encode_latency.push(encode_latency_ms_x100),
            final(self)@.dropped_start == (if old(self)@.ram.len() == 0 {
                dropped_frames_total
            } else {
                old(self)@.dropped_start
            }),
            final(self)@.dropped_latest == dropped_frames_total,
            final(self)@.started_ms == old(self)@.started_ms,
            final(self)@.duration_ms == old(self)@.duration_ms,
            final(self)@.idle_ram_mb_x100 == old(self)@.idle_ram_mb_x100,
            final(self)@.target_fps == old(self)@.target_fps,
    {
        if self.ram.len() == 0 {
            self.dropped_start = dropped_frames_total;
        }
        self.dropped_latest = dropped_frames_total;
        self.ram.push(resources.process_ram_mb_x100);
        self.cpu.push(resources.process_cpu_percent_x100);
        match resources.gpu_usage_percent_x100 {
            Some(g) => self.gpu.push(g),
            None => {},
        }
        match resources.disk_write_mb_per_sec_x100 {
            Some(d) => self.disk.push(d),
            None => {},
        }
        match upload_kbps_x100 {
            Some(u) => self.upload.push(u),
            None => {},
        }
        self.capture_fps.push(capture_fps_x100);
        self.encode_latency.push(encode_latency_ms_x100);
    }

    /// Whether the run has lasted its duration at `now_ms`.
    pub fn is_complete(&self, now_ms: u64) -> (b: bool)
        ensures
            b == (now_ms >= self@.started_ms && now_ms - self@.started_ms >= self@.duration_ms),
    {
        now_ms >= self.started_ms && now_ms - self.started_ms >= self.duration_ms
    }

    fn push_fps_part(&self, s: &mut String)
        ensures
            final(s)@ == old(s)@ + fps_part(self@),
    {
        if self.target_fps > 0 {
            let fps_n = self.capture_fps.len();
            let fps_total = sum_of(&self.capture_fps);
            assert(95 * self.target_fps * fps_n <= 95 * 0xFFFF_FFFFu32 * 0xFFFF_FFFF_FFFF_FFFFu64) by (nonlinear_arith)
                requires
                    self.target_fps <= 0xFFFF_FFFFu32,
                    fps_n <= 0xFFFF_FFFF_FFFF_FFFFu64,
            ;
            let short = fps_n == 0 || fps_total < 95 * (self.target_fps as u128) * (fps_n as u128);
            if short {
                s.append(", captured ");
                push_mean_whole(s, &self.capture_fps);
                s.append(" of ");
                push_decimal(s, self.target_fps as u64);
                s.append(" FPS");
            } else {
                s.append(", held ");
                push_decimal(s, self.target_fps as u64);
                s.append(" FPS");
            }
        }
    }

    fn push_growth_part(&self, s: &mut String)
        ensures
            final(s)@ == old(s)@ + growth_part(self@),
    {
        let n = self.ram.len();
        if n > 0 && self.ram[n - 1] > self.ram[0] && self.ram[n - 1] - self.ram[0] > 2500 {
            let drift = self.ram[n - 1] - self.ram[0];
            s.append(", memory grew ");
            let whole = round_div_exec(drift as u128, 100);
            assert(whole <= 0xFFFF_FFFF_FFFF_FFFFu64);
            push_decimal(s, whole as u64);
            s.append(" MB during the run");
        }
    }

    /// The one-line verdict.
    fn summary(&self) -> (s: String)
        ensures
            s@ == summary_text(self@),
    {
        let mut s = String::new();
        push_mean_whole(&mut s, &self.ram);
        s.append(" MB RAM, ");
        push_mean_whole(&mut s, &self.cpu);
        s.append("% CPU");
        self.push_fps_part(&mut s);
        let dropped = self.dropped_latest.saturating_sub(self.dropped_start);
        if dropped > 0 {
            s.append(", ");
            push_decimal(&mut s, dropped);
            s.append(" frames dropped");
        }
        self.push_growth_part(&mut s);
        s
    }

    /// The report, at `now_ms`.
    pub fn finish(&self, now_ms: u64) -> (rep: BenchmarkReport)
        ensures
            rep.duration_ms == (if now_ms >= self@.started_ms { now_ms - self@.started_ms } else { 0 }),
            rep.idle_ram_mb_x100 == self@.idle_ram_mb_x100,
            rep.peak_ram_mb_x100 == seq_peak(self@.ram),
            rep.mean_ram_mb_x100 == mean_floor(self@.ram),
            rep.ram_drift_mb_x100 == ram_drift(self@.ram),
            rep.mean_cpu_percent_x100 == mean_floor(self@.cpu),
            rep.peak_cpu_percent_x100 == seq_peak(self@.cpu),
            rep.mean_gpu_percent_x100 == optional_mean(self@.gpu),
            rep.mean_capture_fps_x100 == mean_floor(self@.capture_fps),
            rep.target_fps == self@.target_fps,
            rep.dropped_frames == dropped_delta(self@),
            rep.mean_encode_latency_ms_x100 == mean_floor(self@.encode_latency),
            rep.mean_disk_write_mb_per_sec_x100 == optional_mean(self@.disk),
            rep.mean_upload_kbps_x100 == optional_mean(self@.upload),
            rep.samples_taken == self@.ram.len(),
            rep.summary@ == summary_text(self@),
    {
        let dropped = self.dropped_latest.saturating_sub(self.dropped_start);
        let n = self.ram.len();
        let drift: i128 = if n == 0 { 0 } else { self.ram[n - 1] as i128 - self.ram[0] as i128 };
        let summary = self.summary();
        BenchmarkReport {
            duration_ms: now_ms.saturating_sub(self.started_ms),
            idle_ram_mb_x100: self.idle_ram_mb_x100,
            peak_ram_mb_x100: peak_of(&self.ram),
            mean_ram_mb_x100: mean_of(&self.ram),
            ram_drift_mb_x100: drift,
            mean_cpu_percent_x100: mean_of(&self.cpu),
            peak_cpu_percent_x100: peak_of(&self.cpu),
            mean_gpu_percent_x100: optional_mean_of(&self.gpu),
            mean_capture_fps_x100: mean_of(&self.capture_fps),
            target_fps: self.target_fps,
            dropped_frames: dropped,
            mean_encode_latency_ms_x100: mean_of(&self.encode_latency),
            mean_disk_write_mb_per_sec_x100: optional_mean_of(&self.disk),
            mean_upload_kbps_x100: optional_mean_of(&self.upload),
            samples_taken: n,
            summary,
        }
    }
}

} // verus!
