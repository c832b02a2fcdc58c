//! Decisions made from what hardware probing measured: which encoders to
//! try, what to report for them, which adapter captures, the suggested
//! starting preset, and how the OS version is described.

use vstd::prelude::*;

use crate::config::{is_hardware_backend, pixels, res, EncoderBackend, Resolution, VideoCodec};
use crate::profile::{CapabilityProfile, EncoderCapability, GpuInfo, GpuVendor, MonitorInfo, RecommendedPreset};
use crate::text::{decimal, push_decimal, string_of_range};
use crate::unicode::{decode_utf16_lossy, decode_utf8_lossy, strip, strip_range, utf16_encode, utf16_lossy, utf16_of, utf8_lossy};

verus! {

/// RAM below which a machine is treated as low-end.
pub open spec fn ram_low_end_mb() -> int {
    8192int
}

/// RAM from which a machine is treated as high-end.
pub open spec fn ram_high_end_mb() -> int {
    16384int
}

pub open spec fn verified_hardware(e: EncoderCapability) -> bool {
    e.verified && is_hardware_backend(e.backend)
}

/// The suggested starting preset: low-end without a verified hardware
/// encoder or with under 8 GB of RAM; high-end with 16 GB and a verified
/// hardware encoder reaching 1440p; gaming otherwise.
pub open spec fn recommended_preset_spec(encs: Seq<EncoderCapability>, total_ram_mb: int) -> RecommendedPreset {
    let has_hw = exists|i: int| 0 <= i < encs.len() && verified_hardware(#[trigger] encs[i]);
    let reaches_1440p = exists|i: int| 0 <= i < encs.len() && verified_hardware(#[trigger] encs[i])
        && pixels(encs[i].max_resolution) >= 2560 * 1440;
    if !has_hw || total_ram_mb < ram_low_end_mb() {
        RecommendedPreset::LowEnd720p30
    } else if total_ram_mb >= ram_high_end_mb() && reaches_1440p {
        RecommendedPreset::HighEnd1440p60
    } else {
        RecommendedPreset::Gaming1080p60
    }
}

/// Turns a verified capability list and RAM size into a starting preset
/// the user can override.
pub fn recommended_preset(encoders: &Vec<EncoderCapability>, total_ram_mb: u64) -> (p: RecommendedPreset)
    ensures
        p == recommended_preset_spec(encoders@, total_ram_mb as int),
{
    let mut has_hw = false;
    let mut best: u64 = 0;
    let mut i: usize = 0;
    while i < encoders.len()
        invariant
            0 <= i <= encoders@.len(),
            has_hw == exists|j: int| 0 <= j < i && verified_hardware(#[trigger] encoders@[j]),
            best >= 2560 * 1440 <==> exists|j: int| 0 <= j < i && verified_hardware(#[trigger] encoders@[j])
                && pixels(encoders@[j].max_resolution) >= 2560 * 1440,
        decreases encoders@.len() - i,
    {
        let e = encoders[i];
        if e.verified && e.backend.is_hardware() {
            has_hw = true;
            let p = e.max_resolution.pixel_count();
            if p > best {
                best = p;
            }
            assert(verified_hardware(encoders@[i as int]));
        }
        i += 1;
    }
    if !has_hw || total_ram_mb < 8 * 1024 {
        RecommendedPreset::LowEnd720p30
    } else if total_ram_mb >= 16 * 1024 && best >= 2560 * 1440 {
        RecommendedPreset::HighEnd1440p60
    } else {
        RecommendedPreset::Gaming1080p60
    }
}

/// The high-end preset is only suggested when some verified encoder with a
/// hardware backend reaches 1440p; software encoders, whatever their
/// ceiling, never change the suggestion.
pub proof fn law_high_end_needs_hardware_reach(encs: Seq<EncoderCapability>, sw: EncoderCapability, total_ram_mb: int)
    requires
        sw.backend == EncoderBackend::Software,
    ensures
        recommended_preset_spec(encs, total_ram_mb) == RecommendedPreset::HighEnd1440p60 ==> exists|i: int|
            0 <= i < encs.len() && (#[trigger] encs[i]).verified && encs[i].backend != EncoderBackend::Software
                && encs[i].max_resolution.width * encs[i].max_resolution.height >= 2560 * 1440,
        recommended_preset_spec(encs.push(sw), total_ram_mb) == recommended_preset_spec(encs, total_ram_mb),
{
    let p = encs.push(sw);
    assert forall|i: int| 0 <= i < p.len() && verified_hardware(#[trigger] p[i]) implies 0 <= i < encs.len()
        && verified_hardware(encs[i]) && p[i] == encs[i] by {
    }
    assert forall|i: int| 0 <= i < encs.len() && verified_hardware(#[trigger] encs[i]) implies verified_hardware(p[i])
        && p[i] == encs[i] by {
    }
}

/// Conservative documented ceiling of an encoder until a deeper probe
/// reports the device's own.
pub open spec fn max_resolution_spec(backend: EncoderBackend, codec: VideoCodec) -> Resolution {
    match (backend, codec) {
        (EncoderBackend::Software, _) => res(7680, 4320),
        (_, VideoCodec::Av1) => res(7680, 4320),
        _ => res(4096, 4096),
    }
}

pub open spec fn max_fps_spec(backend: EncoderBackend) -> u32 {
    match backend {
        EncoderBackend::Software => 60,
        _ => 120,
    }
}

pub fn max_resolution_for(backend: EncoderBackend, codec: VideoCodec) -> (r: Resolution)
    ensures
        r == max_resolution_spec(backend, codec),
{
    match (backend, codec) {
        (EncoderBackend::Software, _) => Resolution::new(7680, 4320),
        (_, VideoCodec::Av1) => Resolution::new(7680, 4320),
        _ => Resolution::new(4096, 4096),
    }
}

pub fn max_fps_for(backend: EncoderBackend) -> (f: u32)
    ensures
        f == max_fps_spec(backend),
{
    match backend {
        EncoderBackend::Software => 60,
        _ => 120,
    }
}

/// Some adapter of `gpus` is from vendor `v`.
pub open spec fn has_vendor(gpus: Seq<GpuInfo>, v: GpuVendor) -> bool {
    exists|i: int| 0 <= i < gpus.len() && (#[trigger] gpus[i]).vendor == v
}

/// The three codecs a hardware backend is tried for.
pub open spec fn backend_candidates(b: EncoderBackend, names: (Seq<char>, Seq<char>, Seq<char>)) -> Seq<(EncoderBackend, VideoCodec, Seq<char>)> {
    seq![(b, VideoCodec::H264, names.0), (b, VideoCodec::Hevc, names.1), (b, VideoCodec::Av1, names.2)]
}

/// The encoders worth opening given the adapters present: the software
/// encoders always, then each present vendor's three hardware encoders.
pub open spec fn encoder_candidates_spec(gpus: Seq<GpuInfo>) -> Seq<(EncoderBackend, VideoCodec, Seq<char>)> {
    let sw = seq![(EncoderBackend::Software, VideoCodec::H264, "libx264"@), (EncoderBackend::Software, VideoCodec::Hevc, "libx265"@)];
    let nv = if has_vendor(gpus, GpuVendor::Nvidia) {
        backend_candidates(EncoderBackend::Nvenc, ("h264_nvenc"@, "hevc_nvenc"@, "av1_nvenc"@))
    } else {
        Seq::empty()
    };
    let amd = if has_vendor(gpus, GpuVendor::Amd) {
        backend_candidates(EncoderBackend::Amf, ("h264_amf"@, "hevc_amf"@, "av1_amf"@))
    } else {
        Seq::empty()
    };
    let intel = if has_vendor(gpus, GpuVendor::Intel) {
        backend_candidates(EncoderBackend::Qsv, ("h264_qsv"@, "hevc_qsv"@, "av1_qsv"@))
    } else {
        Seq::empty()
    };
    sw + nv + amd + intel
}

pub open spec fn candidates_view(v: Seq<(EncoderBackend, VideoCodec, &'static str)>) -> Seq<(EncoderBackend, VideoCodec, Seq<char>)> {
    v.map_values(|c: (EncoderBackend, VideoCodec, &'static str)| (c.0, c.1, c.2@))
}

fn vendor_present(gpus: &Vec<GpuInfo>, v: GpuVendor) -> (b: bool)
    ensures
        b == has_vendor(gpus@, v),
{
    let mut i: usize = 0;
    while i < gpus.len()
        invariant
            0 <= i <= gpus@.len(),
            forall|j: int| 0 <= j < i ==> (#[trigger] gpus@[j]).vendor != v,
        decreases gpus@.len() - i,
    {
        if gpus[i].vendor == v {
            return true;
        }
        i += 1;
    }
    false
}

/// Which encoders to try opening, given the adapters present.
pub fn encoder_candidates(gpus: &Vec<GpuInfo>) -> (v: Vec<(EncoderBackend, VideoCodec, &'static str)>)
    ensures
        candidates_view(v@) == encoder_candidates_spec(gpus@),
{
    let mut v: Vec<(EncoderBackend, VideoCodec, &'static str)> = Vec::new();
    v.push((EncoderBackend::Software, VideoCodec::H264, "libx264"));
    v.push((EncoderBackend::Software, VideoCodec::Hevc, "libx265"));
    let ghost v0 = v@;
    if vendor_present(gpus, GpuVendor::Nvidia) {
        v.push((EncoderBackend::Nvenc, VideoCodec::H264, "h264_nvenc"));
        v.push((EncoderBackend::Nvenc, VideoCodec::Hevc, "hevc_nvenc"));
        v.push((EncoderBackend::Nvenc, VideoCodec::Av1, "av1_nvenc"));
    }
    let ghost v1 = v@;
    if vendor_present(gpus, GpuVendor::Amd) {
        v.push((EncoderBackend::Amf, VideoCodec::H264, "h264_amf"));
        v.push((EncoderBackend::Amf, VideoCodec::Hevc, "hevc_amf"));
        v.push((EncoderBackend::Amf, VideoCodec::Av1, "av1_amf"));
    }
    let ghost v2 = v@;
    if vendor_present(gpus, GpuVendor::Intel) {
        v.push((EncoderBackend::Qsv, VideoCodec::H264, "h264_qsv"));
        v.push((EncoderBackend::Qsv, VideoCodec::Hevc, "hevc_qsv"));
        v.push((EncoderBackend::Qsv, VideoCodec::Av1, "av1_qsv"));
    }
    assert(candidates_view(v@) =~= encoder_candidates_spec(gpus@));
    v
}

/// The capability reported for a probed candidate.
pub open spec fn capability_of(c: (EncoderBackend, VideoCodec, &'static str), verified: bool) -> EncoderCapability {
    EncoderCapability {
        backend: c.0,
        codec: c.1,
        max_resolution: max_resolution_spec(c.0, c.1),
        max_fps_at_max_resolution: max_fps_spec(c.0),
        verified,
    }
}

/// The capabilities reported after probing: an encoder is listed when it
/// opened, or when it is the software fallback, which is always listed and
/// always counted as verified (it has no hardware dependency).
pub open spec fn probe_results(cands: Seq<(EncoderBackend, VideoCodec, &'static str)>, opened: Seq<bool>) -> Seq<EncoderCapability>
    decreases cands.len(),
{
    if cands.len() == 0 {
        Seq::empty()
    } else {
        let rest = probe_results(cands.drop_last(), opened.take(cands.len() - 1));
        let c = cands.last();
        let ok = opened[cands.len() - 1];
        if ok || c.0 == EncoderBackend::Software {
            rest.push(capability_of(c, ok || c.0 == EncoderBackend::Software))
        } else {
            rest
        }
    }
}

/// Builds the capability list from the candidates and whether each one
/// actually opened.
pub fn capabilities_from_probe(
    candidates: &Vec<(EncoderBackend, VideoCodec, &'static str)>,
    opened: &Vec<bool>,
) -> (v: Vec<EncoderCapability>)
    requires
        candidates@.len() == opened@.len(),
    ensures
        v@ == probe_results(candidates@, opened@),
{
    let mut v: Vec<EncoderCapability> = Vec::new();
    let mut i: usize = 0;
    while i < candidates.len()
        invariant
            0 <= i <= candidates@.len(),
            candidates@.len() == opened@.len(),
            v@ == probe_results(candidates@.take(i as int), opened@.take(i as int)),
        decreases candidates@.len() - i,
    {
        let (backend, codec, _name) = candidates[i];
        let ok = opened[i];
        proof {
            assert(candidates@.take(i + 1).drop_last() == candidates@.take(i as int));
            assert(opened@.take(i + 1).take(i as int) == opened@.take(i as int));
        }
        let software = backend == EncoderBackend::Software;
        if ok || software {
            v.push(EncoderCapability {
                backend,
                codec,
                max_resolution: max_resolution_for(backend, codec),
                max_fps_at_max_resolution: max_fps_for(backend),
                verified: ok || software,
            });
        }
        i += 1;
    }
    assert(candidates@.take(candidates@.len() as int) == candidates@);
    assert(opened@.take(opened@.len() as int) == opened@);
    v
}

/// The vendor of a PCI vendor id.
pub open spec fn vendor_of(id: u32) -> GpuVendor {
    if id == 0x10DE {
        GpuVendor::Nvidia
    } else if id == 0x1002 || id == 0x1022 {
        GpuVendor::Amd
    } else if id == 0x8086 {
        GpuVendor::Intel
    } else {
        GpuVendor::Other
    }
}

pub fn gpu_vendor_from_id(vendor_id: u32) -> (v: GpuVendor)
    ensures
        v == vendor_of(vendor_id),
{
    if vendor_id == 0x10DE {
        GpuVendor::Nvidia
    } else if vendor_id == 0x1002 || vendor_id == 0x1022 {
        GpuVendor::Amd
    } else if vendor_id == 0x8086 {
        GpuVendor::Intel
    } else {
        GpuVendor::Other
    }
}

/// The software rasterizer's vendor id; such an adapter can neither
/// capture nor encode in hardware.
pub fn is_software_adapter(vendor_id: u32) -> (b: bool)
    ensures
        b == (vendor_id == 0x1414),
{
    vendor_id == 0x1414
}

/// Index `i` is the adapter with the most dedicated memory, the first such
/// one when several tie.
pub open spec fn is_capture_choice(gpus: Seq<GpuInfo>, i: int) -> bool {
    &&& 0 <= i < gpus.len()
    &&& forall|j: int| 0 <= j < gpus.len() ==> (#[trigger] gpus[j]).dedicated_vram_mb <= gpus[i].dedicated_vram_mb
    &&& forall|j: int| 0 <= j < i ==> (#[trigger] gpus[j]).dedicated_vram_mb < gpus[i].dedicated_vram_mb
}

/// Marks the adapter with the most dedicated memory as the default
/// capture adapter; every other adapter is left as it was.
pub fn mark_capture_adapter(gpus: &mut Vec<GpuInfo>)
    ensures
        final(gpus)@.len() == old(gpus)@.len(),
        old(gpus)@.len() > 0 ==> exists|i: int| is_capture_choice(old(gpus)@, i) && {
            &&& final(gpus)@[i].is_capture_adapter
            &&& final(gpus)@[i].name == old(gpus)@[i].name
            &&& final(gpus)@[i].vendor == old(gpus)@[i].vendor
            &&& final(gpus)@[i].dedicated_vram_mb == old(gpus)@[i].dedicated_vram_mb
            &&& final(gpus)@[i].driver_version == old(gpus)@[i].driver_version
            &&& forall|j: int| 0 <= j < old(gpus)@.len() && j != i ==> final(gpus)@[j] == old(gpus)@[j]
        },
        old(gpus)@.len() == 0 ==> final(gpus)@ == old(gpus)@,
{
    if gpus.len() == 0 {
        return;
    }
    let mut best: usize = 0;
    let mut i: usize = 1;
    while i < gpus.len()
        invariant
            1 <= i <= gpus@.len(),
            gpus@ == old(gpus)@,
            best < i,
            forall|j: int| 0 <= j < i ==> (#[trigger] gpus@[j]).dedicated_vram_mb <= gpus@[best as int].dedicated_vram_mb,
            forall|j: int| 0 <= j < best ==> (#[trigger] gpus@[j]).dedicated_vram_mb < gpus@[best as int].dedicated_vram_mb,
        decreases gpus@.len() - i,
    {
        if gpus[i].dedicated_vram_mb > gpus[best].dedicated_vram_mb {
            best = i;
        }
        i += 1;
    }
    let mut g = gpus.remove(best);
    g.is_capture_adapter = true;
    gpus.insert(best, g);
    assert(is_capture_choice(old(gpus)@, best as int));
    assert forall|j: int| 0 <= j < old(gpus)@.len() && j != best implies gpus@[j] == old(gpus)@[j] by {
    }
}

/// The scale factor, in percent, of a monitor's effective DPI; 100 when
/// the DPI could not be read.
pub fn dpi_scale_percent(dpi: Option<u32>) -> (p: u32)
    requires
        dpi matches Some(d) ==> d * 100 <= u32::MAX,
    ensures
        p == (match dpi {
            Some(d) => d * 100 / 96,
            None => 100,
        }),
{
    match dpi {
        Some(d) => (d * 100) / 96,
        None => 100,
    }
}

/// A monitor's EDID friendly name for a GDI device name. Not resolved:
/// callers fall back to the device name.
pub fn friendly_name_for_device(_device_name: &str) -> (r: Option<String>)
    ensures
        r is None,
{
    None
}

/// The decimal value of a digit character.
pub open spec fn digit_value(c: char) -> int {
    (c as u32) - ('0' as u32)
}

pub open spec fn is_digit(c: char) -> bool {
    '0' <= c && c <= '9'
}

/// The value of a run of decimal digits.
pub open spec fn digits_value(s: Seq<char>) -> int
    decreases s.len(),
{
    if s.len() == 0 {
        0
    } else {
        digits_value(s.drop_last()) * 10 + digit_value(s.last())
    }
}

/// `s` without a leading `+`.
pub open spec fn unsigned_part(s: Seq<char>) -> Seq<char> {
    if s.len() > 0 && s[0] == '+' { s.drop_first() } else { s }
}

pub open spec fn all_digits(d: Seq<char>) -> bool {
    forall|i: int| 0 <= i < d.len() ==> is_digit(#[trigger] d[i])
}

/// `str::parse::<u32>`: an optional `+`, then one or more decimal digits,
/// with a value that fits in 32 bits.
pub open spec fn parse_u32(s: Seq<char>) -> Option<u32> {
    let d = unsigned_part(s);
    if d.len() > 0 && all_digits(d) && digits_value(d) <= u32::MAX {
        Some(digits_value(d) as u32)
    } else {
        None
    }
}

proof fn lemma_digits_value_monotone(s: Seq<char>, k: int)
    requires
        0 <= k <= s.len(),
        forall|i: int| 0 <= i < s.len() ==> is_digit(#[trigger] s[i]),
    ensures
        digits_value(s.take(k)) <= digits_value(s),
        digits_value(s) >= 0,
    decreases s.len() - k,
{
    if k < s.len() {
        lemma_digits_value_monotone(s, k + 1);
        assert(s.take(k + 1).drop_last() == s.take(k));
        assert(digits_value(s.take(k)) >= 0) by {
            lemma_digits_nonneg(s.take(k));
        }
    } else {
        assert(s.take(k) == s);
        lemma_digits_nonneg(s);
    }
}

proof fn lemma_digits_nonneg(s: Seq<char>)
    requires
        forall|i: int| 0 <= i < s.len() ==> is_digit(#[trigger] s[i]),
    ensures
        digits_value(s) >= 0,
    decreases s.len(),
{
    if s.len() > 0 {
        lemma_digits_nonneg(s.drop_last());
    }
}

/// Parses a decimal `u32` the way `str::parse` does.
pub fn parse_decimal_u32(s: &str) -> (r: Option<u32>)
    ensures
        r == parse_u32(s@),
{
    let c = crate::text::chars_of(s);
    let start: usize = if c.len() > 0 && c[0] == '+' { 1 } else { 0 };
    let ghost d = unsigned_part(c@);
    assert(d == c@.skip(start as int));
    if start >= c.len() {
        return None;
    }
    let mut value: u64 = 0;
    let mut i: usize = start;
    while i < c.len()
        invariant
            start <= i <= c@.len(),
            c@ == s@,
            d == unsigned_part(c@),
            d == c@.skip(start as int),
            d.len() > 0,
            forall|k: int| 0 <= k < i - start ==> is_digit(#[trigger] d[k]),
            value == digits_value(d.take(i - start)),
            value <= u32::MAX,
        decreases c@.len() - i,
    {
        let ch = c[i];
        assert(d[i - start] == c@[i as int]);
        if !('0' <= ch && ch <= '9') {
            assert(!is_digit(d[i - start]));
            return None;
        }
        let dv = (ch as u32 - '0' as u32) as u64;
        let ghost kk = (i - start + 1) as int;
        assert(d.take(kk).drop_last() == d.take(kk - 1));
        assert(d.take(kk).last() == ch);
        assert(digits_value(d.take(kk)) == value * 10 + dv);
        let next = value * 10 + dv;
        if next > 0xFFFF_FFFF {
            proof {
                if forall|k: int| 0 <= k < d.len() ==> is_digit(#[trigger] d[k]) {
                    lemma_digits_value_monotone(d, kk);
                }
            }
            return None;
        }
        value = next;
        i += 1;
    }
    assert(d.take(d.len() as int) == d);
    Some(value as u32)
}

/// A human-readable Windows version:
/// "<product> <display version> (build <n>)", or without the display
/// version when there is none. A missing product name reads
/// "Windows (unknown edition)"; an unreadable build number reads 0.
pub open spec fn version_name_spec(product: Option<Seq<char>>, display: Option<Seq<char>>, build: u32) -> Seq<char> {
    let p = match product {
        Some(p) => p,
        None => "Windows (unknown edition)"@,
    };
    match display {
        Some(v) => p + " "@ + v + " (build "@ + decimal(build as nat) + ")"@,
        None => p + " (build "@ + decimal(build as nat) + ")"@,
    }
}

pub open spec fn opt_view(o: Option<String>) -> Option<Seq<char>> {
    match o {
        Some(s) => Some(s@),
        None => None,
    }
}

/// The build number and version name, from the registry values
/// (`CurrentBuildNumber`, `ProductName`, `DisplayVersion`) that could be
/// read. These keys are the ones Windows Setup writes and are not subject
/// to the compatibility shims that make version APIs misreport.
pub fn detect_windows_version(
    build_number: Option<String>,
    product_name: Option<String>,
    display_version: Option<String>,
) -> (r: (u32, String))
    ensures
        r.0 == (match build_number {
            Some(b) => match parse_u32(b@) {
                Some(n) => n,
                None => 0,
            },
            None => 0,
        }),
        r.1@ == version_name_spec(opt_view(product_name), opt_view(display_version), r.0),
{
    let build: u32 = match &build_number {
        Some(b) => match parse_decimal_u32(b.as_str()) {
            Some(n) => n,
            None => 0,
        },
        None => 0,
    };
    let mut name = match &product_name {
        Some(p) => p.clone(),
        None => String::from_str("Windows (unknown edition)"),
    };
    match &display_version {
        Some(v) => {
            name.append(" ");
            name.append(v.as_str());
        },
        None => {},
    }
    name.append(" (build ");
    push_decimal(&mut name, build as u64);
    name.append(")");
    (build, name)
}

/// `s` as NUL-terminated UTF-16, the form wide Win32 calls take.
pub fn widestring(s: &str) -> (w: Vec<u16>)
    ensures
        w@ == utf16_encode(s@).push(0u16),
{
    let mut w = utf16_of(s);
    w.push(0);
    w
}


/// The processor, as detected.
pub struct CpuInfo {
    pub name: String,
    pub physical_cores: u32,
    pub logical_cores: u32,
    pub total_ram_mb: u64,
}

/// Number of `true` entries.
pub open spec fn count_true(s: Seq<bool>) -> int
    decreases s.len(),
{
    if s.len() == 0 {
        0
    } else {
        count_true(s.drop_last()) + (if s.last() { 1int } else { 0int })
    }
}

/// The physical core count from the processor-relationship entries the
/// system reports, one flag per entry saying whether it describes a core:
/// the number of core entries, or `None` when there are none.
pub fn physical_core_count(is_core_entry: &Vec<bool>) -> (r: Option<u32>)
    ensures
        r == (if (count_true(is_core_entry@) as u32) == 0 {
            None::<u32>
        } else {
            Some(count_true(is_core_entry@) as u32)
        }),
{
    let mut n: u64 = 0;
    let mut i: usize = 0;
    while i < is_core_entry.len()
        invariant
            0 <= i <= is_core_entry@.len(),
            n == count_true(is_core_entry@.take(i as int)),
            n <= i,
        decreases is_core_entry@.len() - i,
    {
        assert(is_core_entry@.take(i + 1).drop_last() == is_core_entry@.take(i as int));
        if is_core_entry[i] {
            n = n + 1;
        }
        i += 1;
    }
    assert(is_core_entry@.take(is_core_entry@.len() as int) == is_core_entry@);
    let c = n as u32;
    if c == 0 {
        None
    } else {
        Some(c)
    }
}

/// The 48 bytes of the processor brand string: the four little-endian
/// bytes of each of the twelve registers returned by the three brand
/// `cpuid` leaves, in order.
pub open spec fn brand_bytes(regs: Seq<u32>) -> Seq<u8> {
    Seq::new(48, |i: int| ((regs[i / 4] >> (8 * (i % 4)) as u32) & 0xff) as u8)
}

/// The processor's name: its brand bytes decoded, NUL padding removed
/// from both ends, then surrounding whitespace.
pub open spec fn brand_name(regs: Seq<u32>) -> Seq<char> {
    strip(strip(utf8_lossy(brand_bytes(regs)), false), true)
}

pub fn cpu_brand_string(regs: &[u32; 12]) -> (s: String)
    ensures
        s@ == brand_name(regs@),
{
    let mut bytes: Vec<u8> = Vec::new();
    let mut i: usize = 0;
    while i < 48
        invariant
            0 <= i <= 48,
            regs@.len() == 12,
            bytes@ == brand_bytes(regs@).take(i as int),
        decreases 48 - i,
    {
        let r = regs[i / 4];
        let shift: u32 = (8 * (i % 4)) as u32;
        bytes.push(((r >> shift) & 0xff) as u8);
        assert(bytes@ == brand_bytes(regs@).take(i + 1));
        i += 1;
    }
    assert(bytes@ == brand_bytes(regs@));
    let text = decode_utf8_lossy(bytes.as_slice());
    let chars = crate::text::chars_of(text.as_str());
    let (a, b) = strip_range(&chars, 0, chars.len(), false);
    assert(chars@.subrange(0, chars@.len() as int) == chars@);
    let (c, d) = strip_range(&chars, a, b, true);
    string_of_range(&chars, c, d)
}

/// Bytes in a megabyte, as the memory figures count them.
pub open spec fn bytes_per_mb() -> int {
    1024int * 1024int
}

/// The detected processor: physical cores as counted, else the logical
/// count (no simultaneous multithreading assumed); memory in whole MB.
pub fn cpu_info(name: String, logical_cores: u32, physical_cores: Option<u32>, total_phys_bytes: u64) -> (c: CpuInfo)
    ensures
        c.name == name,
        c.logical_cores == logical_cores,
        c.physical_cores == (match physical_cores {
            Some(p) => p,
            None => logical_cores,
        }),
        c.total_ram_mb == total_phys_bytes / (bytes_per_mb() as u64),
{
    CpuInfo {
        name,
        physical_cores: match physical_cores {
            Some(p) => p,
            None => logical_cores,
        },
        logical_cores,
        total_ram_mb: total_phys_bytes / (1024 * 1024),
    }
}

/// Index of the first NUL at or after `i`, or -1.
pub open spec fn first_nul_from(u: Seq<u16>, i: int) -> int
    decreases u.len() - i,
{
    if i < 0 || i >= u.len() {
        -1
    } else if u[i] == 0 {
        i
    } else {
        first_nul_from(u, i + 1)
    }
}

/// Length of the text in a fixed NUL-padded UTF-16 field: up to the
/// first NUL, and nothing when the field holds no NUL.
pub open spec fn field_text_len(u: Seq<u16>) -> int {
    if first_nul_from(u, 0) < 0 { 0 } else { first_nul_from(u, 0) }
}

fn field_len(u: &[u16]) -> (n: usize)
    ensures
        n == field_text_len(u@),
        n <= u@.len(),
{
    let mut i: usize = 0;
    while i < u.len()
        invariant
            0 <= i <= u@.len(),
            first_nul_from(u@, 0) == first_nul_from(u@, i as int),
        decreases u@.len() - i,
    {
        if u[i] == 0 {
            return i;
        }
        i += 1;
    }
    0
}

/// A monitor's details from what the display APIs reported: the GDI
/// device name field, the handle, the monitor rectangle, the refresh rate
/// (60 Hz when it could not be read), the effective DPI (none when it
/// could not be read) and the monitor flags (bit 1: primary).
pub fn monitor_info(
    device_name_field: &[u16],
    handle_id: isize,
    left: i32,
    top: i32,
    right: i32,
    bottom: i32,
    refresh_rate_hz: Option<u32>,
    dpi: Option<u32>,
    flags: u32,
) -> (m: MonitorInfo)
    requires
        i32::MIN <= right - left <= i32::MAX,
        i32::MIN <= bottom - top <= i32::MAX,
        dpi matches Some(d) ==> d * 100 <= u32::MAX,
    ensures
        m.id@ == utf16_lossy(device_name_field@.take(field_text_len(device_name_field@))),
        m.friendly_name@ == m.id@,
        m.handle_id == handle_id,
        m.resolution == res((right - left) as u32, (bottom - top) as u32),
        m.refresh_rate_hz == (match refresh_rate_hz {
            Some(r) => r,
            None => 60,
        }),
        m.is_primary == (flags & 1u32 != 0),
        m.dpi_scale_percent == (match dpi {
            Some(d) => d * 100 / 96,
            None => 100,
        }),
{
    let n = field_len(device_name_field);
    let name_units = slice_prefix(device_name_field, n);
    let device_name = decode_utf16_lossy(name_units.as_slice());
    let friendly_name = match friendly_name_for_device(device_name.as_str()) {
        Some(f) => f,
        None => device_name.clone(),
    };
    let width = (right - left) as u32;
    let height = (bottom - top) as u32;
    MonitorInfo {
        id: device_name,
        handle_id,
        friendly_name,
        resolution: Resolution::new(width, height),
        refresh_rate_hz: match refresh_rate_hz {
            Some(r) => r,
            None => 60,
        },
        is_primary: flags & 1 != 0,
        dpi_scale_percent: dpi_scale_percent(dpi),
    }
}

/// The first `n` units of `u`.
fn slice_prefix(u: &[u16], n: usize) -> (v: Vec<u16>)
    requires
        n <= u@.len(),
    ensures
        v@ == u@.take(n as int),
{
    let mut v: Vec<u16> = Vec::new();
    let mut i: usize = 0;
    while i < n
        invariant
            0 <= i <= n <= u@.len(),
            v@ == u@.take(i as int),
        decreases n - i,
    {
        v.push(u[i]);
        assert(u@.take(i + 1) == u@.take(i as int).push(u@[i as int]));
        i += 1;
    }
    v
}

/// A string value read from the registry into a UTF-16 buffer, given
/// the byte count the query reported; the count includes the
/// terminating NUL, which is dropped.
pub open spec fn registry_text_units(buf_len_bytes: u32) -> int {
    if buf_len_bytes / 2 >= 1 { buf_len_bytes / 2 - 1 } else { 0 }
}

pub fn registry_string(buf: &[u16], buf_len_bytes: u32) -> (s: String)
    requires
        registry_text_units(buf_len_bytes) <= buf@.len(),
    ensures
        s@ == utf16_lossy(buf@.take(registry_text_units(buf_len_bytes))),
{
    let n = ((buf_len_bytes / 2) as usize).saturating_sub(1);
    let units = slice_prefix(buf, n);
    decode_utf16_lossy(units.as_slice())
}

/// The capability profile from everything detection found: the processor,
/// adapters, monitors, audio endpoints (input, then output), cameras, the
/// Windows build and name, and the encoders that opened; the recommended
/// preset follows from the encoders and the memory.
pub fn assemble_profile(
    cpu: CpuInfo,
    gpus: Vec<GpuInfo>,
    monitors: Vec<MonitorInfo>,
    audio_input_devices: Vec<String>,
    audio_output_devices: Vec<String>,
    cameras: Vec<String>,
    windows_build: u32,
    windows_version_name: String,
    supported_encoders: Vec<EncoderCapability>,
) -> (p: CapabilityProfile)
    ensures
        p.cpu_name == cpu.name,
        p.cpu_physical_cores == cpu.physical_cores,
        p.cpu_logical_cores == cpu.logical_cores,
        p.total_ram_mb == cpu.total_ram_mb,
        p.gpus == gpus,
        p.windows_build == windows_build,
        p.windows_version_name == windows_version_name,
        p.monitors == monitors,
        p.audio_input_devices == audio_input_devices,
        p.audio_output_devices == audio_output_devices,
        p.cameras == cameras,
        p.supported_encoders@ == supported_encoders@,
        p.recommended_preset == recommended_preset_spec(supported_encoders@, cpu.total_ram_mb as int),
{
    let recommended = recommended_preset(&supported_encoders, cpu.total_ram_mb);
    CapabilityProfile {
        cpu_name: cpu.name,
        cpu_physical_cores: cpu.physical_cores,
        cpu_logical_cores: cpu.logical_cores,
        total_ram_mb: cpu.total_ram_mb,
        gpus,
        windows_build,
        windows_version_name,
        monitors,
        audio_input_devices,
        audio_output_devices,
        cameras,
        supported_encoders,
        recommended_preset: recommended,
    }
}

/// Length of the text in a NUL-padded UTF-16 field that may fill it
/// entirely: up to the first NUL, or the whole field.
pub open spec fn padded_text_len(u: Seq<u16>) -> int {
    if first_nul_from(u, 0) < 0 { u.len() as int } else { first_nul_from(u, 0) }
}

fn padded_len(u: &[u16]) -> (n: usize)
    ensures
        n == padded_text_len(u@),
        n <= u@.len(),
{
    let mut i: usize = 0;
    while i < u.len()
        invariant
            0 <= i <= u@.len(),
            first_nul_from(u@, 0) == first_nul_from(u@, i as int),
        decreases u@.len() - i,
    {
        if u[i] == 0 {
            return i;
        }
        i += 1;
    }
    u.len()
}

/// The driver version shown for every adapter until the driver store is
/// read on the target machine.
pub open spec fn unknown_driver_version() -> Seq<char> {
    "unknown (resolve via driver store on target machine)"@
}

/// An adapter's details from its DXGI description: the description field,
/// the PCI vendor id and the dedicated video memory in bytes. The
/// software rasterizer is not listed. Capture-adapter marking happens once
/// every adapter is known.
pub fn adapter_info(description: &[u16], vendor_id: u32, dedicated_video_memory: u64) -> (g: Option<GpuInfo>)
    ensures
        vendor_id == 0x1414 <==> g is None,
        g matches Some(info) ==> {
            &&& info.name@ == utf16_lossy(description@.take(padded_text_len(description@)))
            &&& info.vendor == vendor_of(vendor_id)
            &&& info.dedicated_vram_mb == dedicated_video_memory / (bytes_per_mb() as u64)
            &&& info.driver_version@ == unknown_driver_version()
            &&& !info.is_capture_adapter
        },
{
    if is_software_adapter(vendor_id) {
        return None;
    }
    let n = padded_len(description);
    let units = slice_prefix(description, n);
    Some(GpuInfo {
        name: decode_utf16_lossy(units.as_slice()),
        vendor: gpu_vendor_from_id(vendor_id),
        dedicated_vram_mb: dedicated_video_memory / (1024 * 1024),
        driver_version: String::from_str("unknown (resolve via driver store on target machine)"),
        is_capture_adapter: false,
    })
}

} // verus!
