//! The adaptive engine: turns sustained resource pressure into a named,
//! user-facing recommendation.
//!
//! A recommendation needs the pressure to persist across a full window of
//! samples (twelve, taken once a second), so a one-second spike never
//! triggers anything; only memory exhaustion bypasses the window. The
//! engine only recommends: whether a change is applied depends on the
//! mode and the auto-optimize switch, and either way the user is told.

use std::collections::VecDeque;

use vstd::prelude::*;

use crate::settings::{mode_name, AdaptiveMode};
use crate::stats::{CaptureStats, EncodeStats, ResourceStats, StreamStats};
use crate::text::{decimal, push_decimal, round_div, round_div_exec};

verus! {

/// One complete observation of the system. Fractional quantities are in
/// hundredths of their unit.
#[derive(Debug, Clone, Copy, PartialEq, Eq, Structural)]
pub struct AdaptiveSample {
    pub resources: ResourceStats,
    pub capture_fps_x100: u64,
    pub target_fps_x100: u64,
    pub encoder_queue_depth: u32,
    pub dropped_frames_delta: u64,
    pub disk_write_mb_per_sec_x100: u64,
    pub required_disk_mb_per_sec_x100: u64,
    pub upload_kbps_x100: Option<u64>,
    pub target_bitrate_kbps_x100: Option<u64>,
}

/// Builds a sample from the stats the rest of the application produces.
pub fn sample_from_stats(
    resources: ResourceStats,
    capture: CaptureStats,
    encode: EncodeStats,
    stream: Option<&StreamStats>,
    target_fps: u32,
    required_disk_mb_per_sec_x100: u64,
) -> (s: AdaptiveSample)
    ensures
        s.resources == resources,
        s.capture_fps_x100 == capture.capture_fps_x100,
        s.target_fps_x100 == target_fps * 100,
        s.encoder_queue_depth == encode.encoder_queue_depth,
        s.dropped_frames_delta == encode.frames_dropped_encoder_backpressure,
        s.disk_write_mb_per_sec_x100 == (match resources.disk_write_mb_per_sec_x100 {
            Some(d) => d,
            None => 0,
        }),
        s.required_disk_mb_per_sec_x100 == required_disk_mb_per_sec_x100,
        s.upload_kbps_x100 == (match stream {
            Some(st) => Some(st.upload_bitrate_kbps_x100),
            None => None::<u64>,
        }),
        s.target_bitrate_kbps_x100 == (match stream {
            Some(st) => Some(st.target_bitrate_kbps_x100),
            None => None::<u64>,
        }),
{
    AdaptiveSample {
        resources,
        capture_fps_x100: capture.capture_fps_x100,
        target_fps_x100: target_fps as u64 * 100,
        encoder_queue_depth: encode.encoder_queue_depth,
        dropped_frames_delta: encode.frames_dropped_encoder_backpressure,
        disk_write_mb_per_sec_x100: match resources.disk_write_mb_per_sec_x100 {
            Some(d) => d,
            None => 0,
        },
        required_disk_mb_per_sec_x100,
        upload_kbps_x100: match stream {
            Some(st) => Some(st.upload_bitrate_kbps_x100),
            None => None,
        },
        target_bitrate_kbps_x100: match stream {
            Some(st) => Some(st.target_bitrate_kbps_x100),
            None => None,
        },
    }
}

#[derive(Debug, Clone, Copy, PartialEq, Eq, Structural)]
pub enum Severity {
    /// Nothing is wrong yet.
    Info,
    /// Quality or stability is measurably affected.
    Warning,
    /// Recording or streaming is at risk of failing.
    Critical,
}

#[derive(Debug, Clone, Copy, PartialEq, Eq, Structural)]
pub enum AdaptiveAction {
    Hold,
    SwitchToHardwareEncoder,
    LowerEncoderPreset,
    LowerFrameRate,
    LowerResolution,
    LowerBitrate,
    DisablePreview,
    DisableInstantReplay,
}

pub open spec fn action_label(a: AdaptiveAction) -> Seq<char> {
    match a {
        AdaptiveAction::Hold => "No change needed"@,
        AdaptiveAction::SwitchToHardwareEncoder => "Switch to hardware encoding"@,
        AdaptiveAction::LowerEncoderPreset => "Use a faster encoder preset"@,
        AdaptiveAction::LowerFrameRate => "Reduce frame rate"@,
        AdaptiveAction::LowerResolution => "Reduce resolution"@,
        AdaptiveAction::LowerBitrate => "Reduce bitrate"@,
        AdaptiveAction::DisablePreview => "Turn off preview"@,
        AdaptiveAction::DisableInstantReplay => "Turn off Instant Replay"@,
    }
}

impl AdaptiveAction {
    pub fn user_label(&self) -> (s: &'static str)
        ensures
            s@ == action_label(*self),
    {
        match self {
            AdaptiveAction::Hold => "No change needed",
            AdaptiveAction::SwitchToHardwareEncoder => "Switch to hardware encoding",
            AdaptiveAction::LowerEncoderPreset => "Use a faster encoder preset",
            AdaptiveAction::LowerFrameRate => "Reduce frame rate",
            AdaptiveAction::LowerResolution => "Reduce resolution",
            AdaptiveAction::LowerBitrate => "Reduce bitrate",
            AdaptiveAction::DisablePreview => "Turn off preview",
            AdaptiveAction::DisableInstantReplay => "Turn off Instant Replay",
        }
    }
}

/// What the engine wants changed and why. The reason is written for the
/// user and cites the measured numbers.
pub struct Recommendation {
    pub action: AdaptiveAction,
    pub reason: String,
    pub severity: Severity,
}

/// A recommendation's view: action, reason text, severity.
pub type RecView = (AdaptiveAction, Seq<char>, Severity);

pub open spec fn rec_view(r: Recommendation) -> RecView {
    (r.action, r.reason@, r.severity)
}

pub open spec fn opt_rec_view(r: Option<Recommendation>) -> Option<RecView> {
    match r {
        Some(x) => Some(rec_view(x)),
        None => None,
    }
}

impl Recommendation {
    pub fn duplicate(&self) -> (r: Recommendation)
        ensures
            rec_view(r) == rec_view(*self),
    {
        Recommendation { action: self.action, reason: self.reason.clone(), severity: self.severity }
    }

    /// Same action, reason and severity.
    pub fn same_as(&self, other: &Recommendation) -> (b: bool)
        ensures
            b == (rec_view(*self) == rec_view(*other)),
    {
        self.action == other.action && self.severity == other.severity && self.reason == other.reason
    }
}

/// A count of tenths rendered with one decimal place.
pub open spec fn one_decimal(tenths: int) -> Seq<char> {
    decimal((tenths / 10) as nat) + "."@ + decimal((tenths % 10) as nat)
}


/// Samples in a full observation window.
pub open spec fn window_len() -> int {
    12
}

pub open spec fn sum_cpu(h: Seq<AdaptiveSample>) -> int
    decreases h.len(),
{
    if h.len() == 0 { 0 } else { sum_cpu(h.drop_last()) + h.last().resources.process_cpu_percent_x100 }
}

pub open spec fn sum_capture(h: Seq<AdaptiveSample>) -> int
    decreases h.len(),
{
    if h.len() == 0 { 0 } else { sum_capture(h.drop_last()) + h.last().capture_fps_x100 }
}

pub open spec fn sum_disk(h: Seq<AdaptiveSample>) -> int
    decreases h.len(),
{
    if h.len() == 0 { 0 } else { sum_disk(h.drop_last()) + h.last().disk_write_mb_per_sec_x100 }
}

pub open spec fn sum_dropped(h: Seq<AdaptiveSample>) -> int
    decreases h.len(),
{
    if h.len() == 0 { 0 } else { sum_dropped(h.drop_last()) + h.last().dropped_frames_delta }
}

/// Every sample saw more than four frames queued in the encoder.
pub open spec fn all_backed_up(h: Seq<AdaptiveSample>) -> bool
    decreases h.len(),
{
    if h.len() == 0 { true } else { all_backed_up(h.drop_last()) && h.last().encoder_queue_depth > 4 }
}

/// Number of samples with an upload measurement.
pub open spec fn upload_count(h: Seq<AdaptiveSample>) -> int
    decreases h.len(),
{
    if h.len() == 0 {
        0
    } else {
        upload_count(h.drop_last()) + (if h.last().upload_kbps_x100 is Some { 1int } else { 0int })
    }
}

/// Sum of the upload measurements present.
pub open spec fn upload_sum(h: Seq<AdaptiveSample>) -> int
    decreases h.len(),
{
    if h.len() == 0 {
        0
    } else {
        upload_sum(h.drop_last()) + (match h.last().upload_kbps_x100 {
            Some(u) => u as int,
            None => 0int,
        })
    }
}

/// Memory above 90% of the system's RAM (taken as at least 1 MB).
pub open spec fn critical_check(total_ram_mb: u64, s: AdaptiveSample) -> Option<RecView> {
    let total = if total_ram_mb == 0 { 1int } else { total_ram_mb as int };
    if s.resources.process_ram_mb_x100 > 90 * total {
        Some((AdaptiveAction::DisableInstantReplay,
            "Brail is using "@ + decimal(round_div(s.resources.process_ram_mb_x100 as int, 100) as nat)
                + " MB of memory, close to this system's limit."@,
            Severity::Critical))
    } else {
        None
    }
}

/// CPU encoding averaging above 25% while a verified hardware encoder is
/// idle.
pub open spec fn software_check(using_software: bool, has_hardware: bool, h: Seq<AdaptiveSample>) -> Option<RecView> {
    if using_software && has_hardware && sum_cpu(h) > 2500 * h.len() {
        Some((AdaptiveAction::SwitchToHardwareEncoder,
            "CPU encoding is using "@ + decimal(round_div(sum_cpu(h), 100 * (h.len() as int)) as nat)
                + "% CPU. A hardware encoder is available and would use far less."@,
            Severity::Warning))
    } else {
        None
    }
}

/// Capture averaging under 80% of the target frame rate.
pub open spec fn capture_check(mode: AdaptiveMode, h: Seq<AdaptiveSample>) -> Option<RecView> {
    let target = h.last().target_fps_x100 as int;
    if target > 0 && 10 * sum_capture(h) < 8 * target * h.len() {
        Some((if mode == AdaptiveMode::Quality { AdaptiveAction::LowerFrameRate } else { AdaptiveAction::LowerResolution },
            "Capturing "@ + decimal(round_div(sum_capture(h), 100 * (h.len() as int)) as nat) + " FPS against a "@
                + decimal(round_div(target, 100) as nat) + " FPS target for the last 12 seconds."@,
            Severity::Warning))
    } else {
        None
    }
}

/// The encoder queue stayed deep for the whole window while frames were
/// dropped.
pub open spec fn saturation_check(h: Seq<AdaptiveSample>) -> Option<RecView> {
    if all_backed_up(h) && sum_dropped(h) > 0 {
        Some((AdaptiveAction::LowerEncoderPreset, "The encoder has been running behind and dropping frames."@,
            Severity::Warning))
    } else {
        None
    }
}

/// The drive sustaining under 90% of the throughput the settings need.
pub open spec fn disk_check(h: Seq<AdaptiveSample>) -> Option<RecView> {
    let required = h.last().required_disk_mb_per_sec_x100 as int;
    if required == 0 {
        None
    } else if sum_disk(h) > 0 && 10 * sum_disk(h) < 9 * required * h.len() {
        Some((AdaptiveAction::LowerBitrate,
            "This drive is sustaining "@ + decimal(round_div(sum_disk(h), 100 * (h.len() as int)) as nat)
                + " MB/s but the current settings need about "@ + decimal(round_div(required, 100) as nat) + " MB/s."@,
            Severity::Warning))
    } else {
        None
    }
}

/// Upload measured on every sample of the window and averaging under 85%
/// of the target bitrate.
pub open spec fn upload_check(h: Seq<AdaptiveSample>) -> Option<RecView> {
    match h.last().target_bitrate_kbps_x100 {
        None => None,
        Some(target) => {
            let n = upload_count(h);
            if n < window_len() {
                None
            } else if 100 * upload_sum(h) < 85 * (target as int) * n {
                Some((AdaptiveAction::LowerBitrate,
                    "Upload has averaged "@ + one_decimal(round_div(upload_sum(h), 10000 * n)) + " Mbps against a "@
                        + one_decimal(round_div(target as int, 10000)) + " Mbps target."@,
                    Severity::Warning))
            } else {
                None
            }
        },
    }
}

/// The CPU budget of each mode, in percent; Custom has none.
pub open spec fn cpu_threshold(mode: AdaptiveMode) -> Option<int> {
    match mode {
        AdaptiveMode::UltraLite | AdaptiveMode::LowEnd => Some(15),
        AdaptiveMode::Balanced | AdaptiveMode::Streaming => Some(35),
        AdaptiveMode::Quality => Some(60),
        AdaptiveMode::Custom => None,
    }
}

/// The application's own CPU averaging above its mode's budget.
pub open spec fn cpu_check(mode: AdaptiveMode, h: Seq<AdaptiveSample>) -> Option<RecView> {
    match cpu_threshold(mode) {
        None => None,
        Some(t) => if sum_cpu(h) > t * 100 * h.len() {
            Some((AdaptiveAction::DisablePreview,
                "Brail has averaged "@ + decimal(round_div(sum_cpu(h), 100 * (h.len() as int)) as nat) + "% CPU, above the "@
                    + decimal(t as nat) + " target for "@ + mode_name(mode) + " mode."@,
                Severity::Info))
        } else {
            None
        },
    }
}

pub open spec fn or_else(a: Option<RecView>, b: Option<RecView>) -> Option<RecView> {
    if a is Some { a } else { b }
}

/// The first check that fires, in priority order.
pub open spec fn first_recommendation(
    mode: AdaptiveMode,
    using_software: bool,
    has_hardware: bool,
    h: Seq<AdaptiveSample>,
) -> Option<RecView> {
    or_else(software_check(using_software, has_hardware, h),
    or_else(capture_check(mode, h),
    or_else(saturation_check(h),
    or_else(disk_check(h),
    or_else(upload_check(h), cpu_check(mode, h))))))
}

/// Sums over the window, computed once per observation.
struct Totals {
    cpu: u128,
    capture: u128,
    disk: u128,
    dropped: u128,
    backed_up: bool,
    uploads: u128,
    upload_total: u128,
}

fn totals_of(h: &VecDeque<AdaptiveSample>) -> (t: Totals)
    requires
        h@.len() <= 12,
    ensures
        t.cpu == sum_cpu(h@),
        t.capture == sum_capture(h@),
        t.disk == sum_disk(h@),
        t.dropped == sum_dropped(h@),
        t.backed_up == all_backed_up(h@),
        t.uploads == upload_count(h@),
        t.upload_total == upload_sum(h@),
        t.cpu <= 12 * 0xFFFF_FFFF_FFFF_FFFFu64,
        t.capture <= 12 * 0xFFFF_FFFF_FFFF_FFFFu64,
        t.disk <= 12 * 0xFFFF_FFFF_FFFF_FFFFu64,
        t.upload_total <= 12 * 0xFFFF_FFFF_FFFF_FFFFu64,
        t.uploads <= h@.len(),
{
    let mut t = Totals { cpu: 0, capture: 0, disk: 0, dropped: 0, backed_up: true, uploads: 0, upload_total: 0 };
    let mut i: usize = 0;
    while i < h.len()
        invariant
            0 <= i <= h@.len() <= 12,
            t.cpu == sum_cpu(h@.take(i as int)),
            t.capture == sum_capture(h@.take(i as int)),
            t.disk == sum_disk(h@.take(i as int)),
            t.dropped == sum_dropped(h@.take(i as int)),
            t.backed_up == all_backed_up(h@.take(i as int)),
            t.uploads == upload_count(h@.take(i as int)),
            t.upload_total == upload_sum(h@.take(i as int)),
            t.cpu <= i * 0xFFFF_FFFF_FFFF_FFFFu64,
            t.capture <= i * 0xFFFF_FFFF_FFFF_FFFFu64,
            t.disk <= i * 0xFFFF_FFFF_FFFF_FFFFu64,
            t.dropped <= i * 0xFFFF_FFFF_FFFF_FFFFu64,
            t.upload_total <= i * 0xFFFF_FFFF_FFFF_FFFFu64,
            t.uploads <= i,
        decreases h@.len() - i,
    {
        let s = h[i];
        assert(h@.take(i + 1).drop_last() == h@.take(i as int));
        assert(h@.take(i + 1).last() == s);
        t.cpu = t.cpu + s.resources.process_cpu_percent_x100 as u128;
        t.capture = t.capture + s.capture_fps_x100 as u128;
        t.disk = t.disk + s.disk_write_mb_per_sec_x100 as u128;
        t.dropped = t.dropped + s.dropped_frames_delta as u128;
        t.backed_up = t.backed_up && s.encoder_queue_depth > 4;
        match s.upload_kbps_x100 {
            Some(u) => {
                t.uploads = t.uploads + 1;
                t.upload_total = t.upload_total + u as u128;
            },
            None => {},
        }
        i += 1;
    }
    assert(h@.take(h@.len() as int) == h@);
    t
}


spec fn totals_match(t: Totals, h: Seq<AdaptiveSample>) -> bool {
    &&& t.cpu == sum_cpu(h)
    &&& t.capture == sum_capture(h)
    &&& t.disk == sum_disk(h)
    &&& t.dropped == sum_dropped(h)
    &&& t.backed_up == all_backed_up(h)
    &&& t.uploads == upload_count(h)
    &&& t.upload_total == upload_sum(h)
    &&& t.cpu <= 12 * 0xFFFF_FFFF_FFFF_FFFFu64
    &&& t.capture <= 12 * 0xFFFF_FFFF_FFFF_FFFFu64
    &&& t.disk <= 12 * 0xFFFF_FFFF_FFFF_FFFFu64
    &&& t.upload_total <= 12 * 0xFFFF_FFFF_FFFF_FFFFu64
    &&& t.uploads <= h.len()
}

fn recommendation(action: AdaptiveAction, reason: String, severity: Severity) -> (r: Option<Recommendation>)
    ensures
        opt_rec_view(r) == Some((action, reason@, severity)),
{
    Some(Recommendation { action, reason, severity })
}

/// Appends `n / d` rounded half to even.
fn push_rounded(s: &mut String, n: u128, d: u128)
    requires
        100 <= d <= 1_000_000,
        n <= 12 * 0xFFFF_FFFF_FFFF_FFFFu64,
    ensures
        final(s)@ == old(s)@ + decimal(round_div(n as int, d as int) as nat),
{
    let q = round_div_exec(n, d);
    assert(q <= 0xFFFF_FFFF_FFFF_FFFFu64) by (nonlinear_arith)
        requires
            q <= n / d + 1,
            100 <= d,
            n <= 12 * 0xFFFF_FFFF_FFFF_FFFFu64,
    {
        assert(n / d <= n / 100) by {
            vstd::arithmetic::div_mod::lemma_div_is_ordered_by_denominator(n as int, 100, d as int);
        }
    }
    push_decimal(s, q as u64);
}

/// Appends `n / d` rounded half to even, as tenths with one decimal.
fn push_rounded_tenths(s: &mut String, n: u128, d: u128)
    requires
        10000 <= d <= 1_000_000,
        n <= 12 * 0xFFFF_FFFF_FFFF_FFFFu64,
    ensures
        final(s)@ == old(s)@ + one_decimal(round_div(n as int, d as int)),
{
    let q = round_div_exec(n, d);
    assert(q <= 0xFFFF_FFFF_FFFF_FFFFu64) by (nonlinear_arith)
        requires
            q <= n / d + 1,
            10000 <= d,
            n <= 12 * 0xFFFF_FFFF_FFFF_FFFFu64,
    {
        assert(n / d <= n / 10000) by {
            vstd::arithmetic::div_mod::lemma_div_is_ordered_by_denominator(n as int, 10000, d as int);
        }
    }
    let q = q as u64;
    push_decimal(s, q / 10);
    s.append(".");
    push_decimal(s, q % 10);
}

fn software_check_exec(using_software: bool, has_hardware: bool, t: &Totals, h: &VecDeque<AdaptiveSample>) -> (r: Option<Recommendation>)
    requires
        totals_match(*t, h@),
        h@.len() == 12,
    ensures
        opt_rec_view(r) == software_check(using_software, has_hardware, h@),
{
    if using_software && has_hardware && t.cpu > 2500 * 12 {
        let mut reason = String::from_str("CPU encoding is using ");
        push_rounded(&mut reason, t.cpu, 1200);
        reason.append("% CPU. A hardware encoder is available and would use far less.");
        recommendation(AdaptiveAction::SwitchToHardwareEncoder, reason, Severity::Warning)
    } else {
        None
    }
}

fn capture_check_exec(mode: AdaptiveMode, t: &Totals, h: &VecDeque<AdaptiveSample>) -> (r: Option<Recommendation>)
    requires
        totals_match(*t, h@),
        h@.len() == 12,
    ensures
        opt_rec_view(r) == capture_check(mode, h@),
{
    let target = h[11].target_fps_x100 as u128;
    if target > 0 && 10 * t.capture < 8 * target * 12 {
        let action = if mode == AdaptiveMode::Quality { AdaptiveAction::LowerFrameRate } else { AdaptiveAction::LowerResolution };
        let mut reason = String::from_str("Capturing ");
        push_rounded(&mut reason, t.capture, 1200);
        reason.append(" FPS against a ");
        push_rounded(&mut reason, target, 100);
        reason.append(" FPS target for the last 12 seconds.");
        recommendation(action, reason, Severity::Warning)
    } else {
        None
    }
}

fn saturation_check_exec(t: &Totals, h: &VecDeque<AdaptiveSample>) -> (r: Option<Recommendation>)
    requires
        totals_match(*t, h@),
    ensures
        opt_rec_view(r) == saturation_check(h@),
{
    if t.backed_up && t.dropped > 0 {
        let reason = String::from_str("The encoder has been running behind and dropping frames.");
        recommendation(AdaptiveAction::LowerEncoderPreset, reason, Severity::Warning)
    } else {
        None
    }
}

fn disk_check_exec(t: &Totals, h: &VecDeque<AdaptiveSample>) -> (r: Option<Recommendation>)
    requires
        totals_match(*t, h@),
        h@.len() == 12,
    ensures
        opt_rec_view(r) == disk_check(h@),
{
    let required = h[11].required_disk_mb_per_sec_x100 as u128;
    if required == 0 {
        return None;
    }
    if t.disk > 0 && 10 * t.disk < 9 * required * 12 {
        let mut reason = String::from_str("This drive is sustaining ");
        push_rounded(&mut reason, t.disk, 1200);
        reason.append(" MB/s but the current settings need about ");
        push_rounded(&mut reason, required, 100);
        reason.append(" MB/s.");
        recommendation(AdaptiveAction::LowerBitrate, reason, Severity::Warning)
    } else {
        None
    }
}

fn upload_check_exec(t: &Totals, h: &VecDeque<AdaptiveSample>) -> (r: Option<Recommendation>)
    requires
        totals_match(*t, h@),
        h@.len() == 12,
    ensures
        opt_rec_view(r) == upload_check(h@),
{
    match h[11].target_bitrate_kbps_x100 {
        None => None,
        Some(target) => {
            if t.uploads < 12 {
                return None;
            }
            let target = target as u128;
            if 100 * t.upload_total < 85 * target * 12 {
                let mut reason = String::from_str("Upload has averaged ");
                push_rounded_tenths(&mut reason, t.upload_total, 120000);
                reason.append(" Mbps against a ");
                push_rounded_tenths(&mut reason, target, 10000);
                reason.append(" Mbps target.");
                recommendation(AdaptiveAction::LowerBitrate, reason, Severity::Warning)
            } else {
                None
            }
        },
    }
}

fn cpu_check_exec(mode: AdaptiveMode, t: &Totals, h: &VecDeque<AdaptiveSample>) -> (r: Option<Recommendation>)
    requires
        totals_match(*t, h@),
        h@.len() == 12,
    ensures
        opt_rec_view(r) == cpu_check(mode, h@),
{
    let threshold: u128 = match mode {
        AdaptiveMode::UltraLite | AdaptiveMode::LowEnd => 15,
        AdaptiveMode::Balanced | AdaptiveMode::Streaming => 35,
        AdaptiveMode::Quality => 60,
        AdaptiveMode::Custom => {
            return None;
        },
    };
    if t.cpu > threshold * 100 * 12 {
        let mut reason = String::from_str("Brail has averaged ");
        push_rounded(&mut reason, t.cpu, 1200);
        reason.append("% CPU, above the ");
        push_decimal(&mut reason, threshold as u64);
        reason.append(" target for ");
        reason.append(mode.display_name());
        reason.append(" mode.");
        recommendation(AdaptiveAction::DisablePreview, reason, Severity::Info)
    } else {
        None
    }
}

/// The engine's state.
pub struct EngineState {
    pub mode: AdaptiveMode,
    pub auto_optimize: bool,
    pub history: Seq<AdaptiveSample>,
    pub total_ram_mb: u64,
    pub has_hardware_encoder: bool,
    pub using_software_encoder: bool,
    pub last_recommendation: Option<RecView>,
}

/// The window after adding a sample: the newest twelve samples.
pub open spec fn next_history(h: Seq<AdaptiveSample>, s: AdaptiveSample) -> Seq<AdaptiveSample> {
    let p = h.push(s);
    if p.len() > window_len() { p.drop_first() } else { p }
}

pub open spec fn with_history(st: EngineState, h: Seq<AdaptiveSample>, last: Option<RecView>) -> EngineState {
    EngineState {
        mode: st.mode,
        auto_optimize: st.auto_optimize,
        history: h,
        total_ram_mb: st.total_ram_mb,
        has_hardware_encoder: st.has_hardware_encoder,
        using_software_encoder: st.using_software_encoder,
        last_recommendation: last,
    }
}

/// One observation: critical memory pressure answers at once; otherwise
/// nothing until the window is full, then the first check that fires,
/// unless it repeats the last recommendation given.
pub open spec fn observe_effect(st: EngineState, s: AdaptiveSample) -> (EngineState, Option<RecView>) {
    let h = next_history(st.history, s);
    let critical = critical_check(st.total_ram_mb, s);
    if critical is Some {
        (with_history(st, h, critical), critical)
    } else if h.len() < window_len() {
        (with_history(st, h, st.last_recommendation), None)
    } else {
        let rec = first_recommendation(st.mode, st.using_software_encoder, st.has_hardware_encoder, h);
        if rec is None || st.last_recommendation == rec {
            (with_history(st, h, st.last_recommendation), None)
        } else {
            (with_history(st, h, rec), rec)
        }
    }
}

pub struct AdaptiveEngine {
    mode: AdaptiveMode,
    auto_optimize: bool,
    history: VecDeque<AdaptiveSample>,
    total_ram_mb: u64,
    has_hardware_encoder: bool,
    using_software_encoder: bool,
    last_recommendation: Option<Recommendation>,
}

impl View for AdaptiveEngine {
    type V = EngineState;

    closed spec fn view(&self) -> EngineState {
        EngineState {
            mode: self.mode,
            auto_optimize: self.auto_optimize,
            history: self.history@,
            total_ram_mb: self.total_ram_mb,
            has_hardware_encoder: self.has_hardware_encoder,
            using_software_encoder: self.using_software_encoder,
            last_recommendation: opt_rec_view(self.last_recommendation),
        }
    }
}

fn critical_check_exec(total_ram_mb: u64, s: &AdaptiveSample) -> (r: Option<Recommendation>)
    ensures
        opt_rec_view(r) == critical_check(total_ram_mb, *s),
{
    let total: u128 = if total_ram_mb == 0 { 1 } else { total_ram_mb as u128 };
    let ram = s.resources.process_ram_mb_x100;
    if ram as u128 > 90 * total {
        let mut reason = String::from_str("Brail is using ");
        push_rounded(&mut reason, ram as u128, 100);
        reason.append(" MB of memory, close to this system's limit.");
        recommendation(AdaptiveAction::DisableInstantReplay, reason, Severity::Critical)
    } else {
        None
    }
}

impl AdaptiveEngine {
    /// The window never holds more than twelve samples.
    pub closed spec fn wf(&self) -> bool {
        self.history@.len() <= 12
    }

    pub fn new(mode: AdaptiveMode, auto_optimize: bool, total_ram_mb: u64) -> (e: Self)
        ensures
            e.wf(),
            e@.mode == mode,
            e@.auto_optimize == auto_optimize,
            e@.history == Seq::<AdaptiveSample>::empty(),
            e@.total_ram_mb == total_ram_mb,
            !e@.has_hardware_encoder,
            !e@.using_software_encoder,
            e@.last_recommendation is None,
    {
        AdaptiveEngine {
            mode,
            auto_optimize,
            history: VecDeque::new(),
            total_ram_mb,
            has_hardware_encoder: false,
            using_software_encoder: false,
            last_recommendation: None,
        }
    }

    /// Changes mode. The window restarts: the previous mode's thresholds
    /// no longer apply to it.
    pub fn set_mode(&mut self, mode: AdaptiveMode)
        requires
            old(self).wf(),
        ensures
            final(self).wf(),
            final(self)@ == (EngineState { mode, history: Seq::<AdaptiveSample>::empty(), ..old(self)@ }),
    {
        self.mode = mode;
        self.history.clear();
    }

    pub fn set_encoder_state(&mut self, has_hardware: bool, using_software: bool)
        requires
            old(self).wf(),
        ensures
            final(self).wf(),
            final(self)@ == (EngineState {
                has_hardware_encoder: has_hardware,
                using_software_encoder: using_software,
                ..old(self)@
            }),
    {
        self.has_hardware_encoder = has_hardware;
        self.using_software_encoder = using_software;
    }

    /// Whether a recommendation should actually be applied rather than
    /// only shown: auto-optimize is on and the mode is not Custom.
    pub fn should_auto_apply(&self) -> (b: bool)
        ensures
            b == (self@.auto_optimize && self@.mode != AdaptiveMode::Custom),
    {
        self.auto_optimize && self.mode.allows_auto_apply()
    }

    fn first_check(&self, t: &Totals) -> (r: Option<Recommendation>)
        requires
            totals_match(*t, self.history@),
            self.history@.len() == 12,
        ensures
            opt_rec_view(r) == first_recommendation(self.mode, self.using_software_encoder,
                self.has_hardware_encoder, self.history@),
    {
        let r = software_check_exec(self.using_software_encoder, self.has_hardware_encoder, t, &self.history);
        if r.is_some() {
            return r;
        }
        let r = capture_check_exec(self.mode, t, &self.history);
        if r.is_some() {
            return r;
        }
        let r = saturation_check_exec(t, &self.history);
        if r.is_some() {
            return r;
        }
        let r = disk_check_exec(t, &self.history);
        if r.is_some() {
            return r;
        }
        let r = upload_check_exec(t, &self.history);
        if r.is_some() {
            return r;
        }
        cpu_check_exec(self.mode, t, &self.history)
    }

    /// Feeds one sample and returns a recommendation when a sustained
    /// condition (or critical memory pressure) warrants one that was not
    /// just given.
    pub fn observe(&mut self, sample: AdaptiveSample) -> (r: Option<Recommendation>)
        requires
            old(self).wf(),
        ensures
            final(self).wf(),
            (final(self)@, opt_rec_view(r)) == observe_effect(old(self)@, sample),
    {
        self.history.push_back(sample);
        if self.history.len() > 12 {
            let _ = self.history.pop_front();
        }
        assert(self.history@ == next_history(old(self).history@, sample));
        let critical = critical_check_exec(self.total_ram_mb, &sample);
        match critical {
            Some(c) => {
                self.last_recommendation = Some(c.duplicate());
                return Some(c);
            },
            None => {},
        }
        if self.history.len() < 12 {
            return None;
        }
        let totals = totals_of(&self.history);
        let rec = self.first_check(&totals);
        match rec {
            None => None,
            Some(r) => {
                let repeated = match &self.last_recommendation {
                    Some(last) => last.same_as(&r),
                    None => false,
                };
                if repeated {
                    None
                } else {
                    self.last_recommendation = Some(r.duplicate());
                    Some(r)
                }
            },
        }
    }
}

/// Observing a sequence of samples one after another: the final state and
/// each observation's answer.
pub open spec fn observe_all(st: EngineState, samples: Seq<AdaptiveSample>) -> (EngineState, Seq<Option<RecView>>)
    decreases samples.len(),
{
    if samples.len() == 0 {
        (st, Seq::empty())
    } else {
        let (st1, out) = observe_effect(st, samples[0]);
        let (st2, rest) = observe_all(st1, samples.drop_first());
        (st2, seq![out] + rest)
    }
}

/// Memory exhaustion is answered by the very sample that shows it,
/// whatever the window holds, and becomes the last recommendation given.
pub proof fn law_critical_memory_answers_at_once(st: EngineState, s: AdaptiveSample)
    requires
        critical_check(st.total_ram_mb, s) is Some,
    ensures
        observe_effect(st, s).1 == critical_check(st.total_ram_mb, s),
        observe_effect(st, s).0.last_recommendation == critical_check(st.total_ram_mb, s),
{
}

/// The window keeps the newest twelve samples, the latest last.
pub proof fn law_window_keeps_newest_samples(st: EngineState, s: AdaptiveSample)
    requires
        st.history.len() <= window_len(),
    ensures
        observe_effect(st, s).0.history.len() <= window_len(),
        observe_effect(st, s).0.history.last() == s,
        observe_effect(st, s).0.history == st.history.push(s).subrange(
            st.history.push(s).len() - observe_effect(st, s).0.history.len(),
            st.history.push(s).len() as int,
        ),
{
    let p = st.history.push(s);
    if p.len() > window_len() {
        assert(p.drop_first() == p.subrange(1, p.len() as int));
    } else {
        assert(p == p.subrange(0, p.len() as int));
    }
}

/// Without critical memory pressure nothing is recommended until the
/// window is full: a run of samples shorter than the window, starting
/// from an empty window (as after a mode change), never triggers anything.
pub proof fn law_spikes_shorter_than_window_are_ignored(st: EngineState, samples: Seq<AdaptiveSample>)
    requires
        st.history.len() + samples.len() < window_len(),
        forall|i: int| 0 <= i < samples.len() ==> critical_check(st.total_ram_mb, #[trigger] samples[i]) is None,
    ensures
        observe_all(st, samples).1.len() == samples.len(),
        forall|i: int| 0 <= i < samples.len() ==> #[trigger] observe_all(st, samples).1[i] is None,
        observe_all(st, samples).0.last_recommendation == st.last_recommendation,
    decreases samples.len(),
{
    if samples.len() > 0 {
        let (st1, out) = observe_effect(st, samples[0]);
        assert(critical_check(st.total_ram_mb, samples[0]) is None);
        assert(st1.history.len() == st.history.len() + 1);
        assert(st1.total_ram_mb == st.total_ram_mb);
        let rest = samples.drop_first();
        assert forall|i: int| 0 <= i < rest.len() implies critical_check(st1.total_ram_mb, #[trigger] rest[i]) is None by {
            assert(rest[i] == samples[i + 1]);
        }
        law_spikes_shorter_than_window_are_ignored(st1, rest);
        let all = observe_all(st, samples).1;
        assert forall|i: int| 0 <= i < samples.len() implies #[trigger] all[i] is None by {
            if i > 0 {
                assert(all[i] == observe_all(st1, rest).1[i - 1]);
            }
        }
    }
}

/// A recommendation is never given twice in a row: a sustained
/// condition is reported once, and again only when the situation changes.
/// (Critical memory pressure is exempt: it is reported on every sample
/// that shows it.)
pub proof fn law_recommendation_never_repeats(st: EngineState, s: AdaptiveSample)
    requires
        critical_check(st.total_ram_mb, s) is None,
        observe_effect(st, s).1 is Some,
    ensures
        st.last_recommendation != observe_effect(st, s).1,
        observe_effect(st, s).0.last_recommendation == observe_effect(st, s).1,
{
}

/// Observing changes nothing but the window and the last recommendation.
pub proof fn law_observe_keeps_settings(st: EngineState, s: AdaptiveSample)
    ensures
        observe_effect(st, s).0.mode == st.mode,
        observe_effect(st, s).0.auto_optimize == st.auto_optimize,
        observe_effect(st, s).0.total_ram_mb == st.total_ram_mb,
        observe_effect(st, s).0.has_hardware_encoder == st.has_hardware_encoder,
        observe_effect(st, s).0.using_software_encoder == st.using_software_encoder,
{
}

proof fn lemma_backed_up_everywhere(h: Seq<AdaptiveSample>)
    requires
        all_backed_up(h),
    ensures
        forall|i: int| 0 <= i < h.len() ==> (#[trigger] h[i]).encoder_queue_depth > 4,
    decreases h.len(),
{
    if h.len() > 0 {
        lemma_backed_up_everywhere(h.drop_last());
        assert forall|i: int| 0 <= i < h.len() implies (#[trigger] h[i]).encoder_queue_depth > 4 by {
            if i < h.len() - 1 {
                assert(h[i] == h.drop_last()[i]);
            }
        }
    }
}

proof fn lemma_some_frame_dropped(h: Seq<AdaptiveSample>)
    requires
        sum_dropped(h) > 0,
    ensures
        exists|i: int| 0 <= i < h.len() && (#[trigger] h[i]).dropped_frames_delta > 0,
    decreases h.len(),
{
    if h.last().dropped_frames_delta > 0 {
        assert(h[h.len() - 1].dropped_frames_delta > 0);
    } else {
        lemma_some_frame_dropped(h.drop_last());
        let k = choose|k: int| 0 <= k < h.drop_last().len() && (#[trigger] h.drop_last()[k]).dropped_frames_delta > 0;
        assert(h[k] == h.drop_last()[k]);
    }
}

/// A lower encoder preset is advised only after a full window in which
/// the encoder queue held more than four frames on every single sample
/// and some frames were dropped: one sample with a shallow queue rules it
/// out.
pub proof fn law_preset_advice_needs_a_backed_up_window(st: EngineState, s: AdaptiveSample)
    ensures
        ({
            let (next, r) = observe_effect(st, s);
            r matches Some(rec) && rec.0 == AdaptiveAction::LowerEncoderPreset ==> {
                &&& next.history.len() >= window_len()
                &&& forall|i: int| 0 <= i < next.history.len() ==> (#[trigger] next.history[i]).encoder_queue_depth > 4
                &&& exists|i: int| 0 <= i < next.history.len() && (#[trigger] next.history[i]).dropped_frames_delta > 0
            }
        }),
{
    let h = next_history(st.history, s);
    if critical_check(st.total_ram_mb, s) is None && h.len() >= window_len() {
        let rec = first_recommendation(st.mode, st.using_software_encoder, st.has_hardware_encoder, h);
        if rec matches Some(x) && x.0 == AdaptiveAction::LowerEncoderPreset {
            assert(software_check(st.using_software_encoder, st.has_hardware_encoder, h) is None);
            assert(capture_check(st.mode, h) is None);
            assert(saturation_check(h) is Some);
            lemma_backed_up_everywhere(h);
            lemma_some_frame_dropped(h);
        }
    }
}

/// Custom mode sets no CPU budget, so CPU pressure alone never produces
/// a recommendation there.
pub proof fn law_custom_mode_has_no_cpu_budget(h: Seq<AdaptiveSample>)
    ensures
        cpu_check(AdaptiveMode::Custom, h) is None,
{
}

} // verus!
