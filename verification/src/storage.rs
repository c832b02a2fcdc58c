//! Disk headroom and output file naming.

use vstd::prelude::*;

use crate::error::BrailError;
use crate::recovery::{has_verbatim_prefix, join_file_name, joined_path};

verus! {

/// Free bytes hold at least `seconds` of recording at `bitrate_kbps`.
/// With no bitrate nothing is consumed, so any amount is enough.
pub open spec fn holds_seconds(free_bytes: int, bitrate_kbps: int, seconds: int) -> bool {
    bitrate_kbps == 0 || free_bytes * 8 >= seconds * bitrate_kbps * 1000
}

/// Whether a recording may start: at least one minute of estimated
/// headroom at the selected bitrate.
pub fn has_minimum_headroom(free_bytes: u64, bitrate_kbps: u32) -> (b: bool)
    ensures
        b == holds_seconds(free_bytes as int, bitrate_kbps as int, 60),
{
    bitrate_kbps == 0 || (free_bytes as u128) * 8 >= 60 * (bitrate_kbps as u128) * 1000
}

/// Whole seconds of recording that fit in `free_bytes` at
/// `total_bitrate_kbps`; `None` when nothing is being written, so the
/// space never runs out.
pub fn estimated_seconds_remaining(free_bytes: u64, total_bitrate_kbps: u32) -> (r: Option<u64>)
    ensures
        total_bitrate_kbps == 0 <==> r is None,
        r matches Some(s) ==> s == (free_bytes * 8) / (total_bitrate_kbps * 1000),
{
    if total_bitrate_kbps == 0 {
        return None;
    }
    let bits: u128 = free_bytes as u128 * 8;
    let rate: u128 = total_bitrate_kbps as u128 * 1000;
    assert(bits / rate <= bits) by (nonlinear_arith)
        requires
            rate >= 1,
            bits >= 0,
    ;
    assert(bits / rate <= 0xFFFF_FFFF_FFFF_FFFFu64) by (nonlinear_arith)
        requires
            rate >= 1000,
            bits <= 8 * 0xFFFF_FFFF_FFFF_FFFFu64,
    {
        assert(bits / rate <= bits / 1000) by {
            vstd::arithmetic::div_mod::lemma_div_is_ordered_by_denominator(bits as int, 1000, rate as int);
        }
    }
    Some((bits / rate) as u64)
}

/// The start check and the estimate agree: a recording may start exactly
/// when the estimate shows at least a minute of space (or nothing is
/// being written).
pub proof fn law_headroom_is_a_minute_of_estimate(free_bytes: u64, bitrate_kbps: u32)
    ensures
        holds_seconds(free_bytes as int, bitrate_kbps as int, 60) <==> (bitrate_kbps == 0 || (free_bytes * 8) / (
        bitrate_kbps * 1000) >= 60),
{
    if bitrate_kbps > 0 {
        let a = free_bytes * 8;
        let b = bitrate_kbps * 1000;
        assert((a / b >= 60) <==> (a >= 60 * b)) by (nonlinear_arith)
            requires
                b > 0,
                a >= 0,
        {
            vstd::arithmetic::div_mod::lemma_fundamental_div_mod(a, b);
        }
        assert(60 * b == 60 * bitrate_kbps * 1000);
    }
}

/// Highest numbered suffix tried before giving up on a unique name.
pub open spec fn max_name_attempt() -> int {
    999
}

/// The file name for a numbered attempt: `<prefix>_<timestamp>.<ext>`
/// first, then `_1` to `_999` appended to the stem, then `_overflow`.
pub open spec fn output_name(prefix: Seq<char>, timestamp: Seq<char>, ext: Seq<char>, attempt: int) -> Seq<char> {
    let base = prefix + "_"@ + timestamp;
    if attempt == 0 {
        base + "."@ + ext
    } else if attempt <= max_name_attempt() {
        base + "_"@ + crate::text::decimal(attempt as nat) + "."@ + ext
    } else {
        base + "_overflow."@ + ext
    }
}

pub fn output_file_name(prefix: &str, timestamp: &str, extension: &str, attempt: u32) -> (s: String)
    ensures
        s@ == output_name(prefix@, timestamp@, extension@, attempt as int),
{
    let mut s = String::from_str(prefix);
    s.append("_");
    s.append(timestamp);
    if attempt == 0 {
        s.append(".");
    } else if attempt <= 999 {
        s.append("_");
        crate::text::push_decimal(&mut s, attempt as u64);
        s.append(".");
    } else {
        s.append("_overflow.");
    }
    s.append(extension);
    s
}

/// Where the application configuration is kept, and the sibling files a
/// save and a recovery use.
pub struct ConfigStore {
    path: String,
}

/// A step of loading or saving the configuration that can fail.
#[derive(Debug, Clone, Copy, PartialEq, Eq, Structural)]
pub enum ConfigStage {
    Read,
    Serialize,
    WriteTemp,
    Commit,
}

pub open spec fn stage_prefix(s: ConfigStage) -> Seq<char> {
    match s {
        ConfigStage::Read => "failed to read config: "@,
        ConfigStage::Serialize => "failed to serialize config: "@,
        ConfigStage::WriteTemp => "failed to write temp config: "@,
        ConfigStage::Commit => "failed to commit config: "@,
    }
}

impl ConfigStore {
    /// The configuration file's path.
    pub closed spec fn path_view(&self) -> Seq<char> {
        self.path@
    }

    /// The store for a configuration directory: `config.json` inside it.
    pub fn new(config_dir: &str) -> (c: Self)
        ensures
            !has_verbatim_prefix(config_dir@) ==> joined_path(config_dir@, "config.json"@, c.path_view()),
    {
        let name = "config.json";
        proof {
            reveal_strlit("config.json");
        }
        ConfigStore { path: join_file_name(config_dir, name) }
    }

    pub fn path(&self) -> (p: &str)
        ensures
            p@ == self.path_view(),
    {
        self.path.as_str()
    }

    /// The file a save writes first and then renames over the real one,
    /// so a crash mid-write leaves either the old or the new
    /// configuration, never half of one: `config.json.tmp`.
    pub fn temp_path(&self) -> (p: String)
        ensures
            p@ == self.path_view() + ".tmp"@,
    {
        let mut p = self.path.clone();
        p.append(".tmp");
        p
    }

    /// Where an unreadable configuration is copied before falling back to
    /// defaults: `config.json.corrupt`.
    pub fn backup_path(&self) -> (p: String)
        ensures
            p@ == self.path_view() + ".corrupt"@,
    {
        let mut p = self.path.clone();
        p.append(".corrupt");
        p
    }

    /// The error reported when a step of loading or saving fails.
    pub fn failure(stage: ConfigStage, detail: &str) -> (e: BrailError)
        ensures
            e matches BrailError::Internal(m) && m@ == stage_prefix(stage) + detail@,
    {
        let mut m = String::from_str(match stage {
            ConfigStage::Read => "failed to read config: ",
            ConfigStage::Serialize => "failed to serialize config: ",
            ConfigStage::WriteTemp => "failed to write temp config: ",
            ConfigStage::Commit => "failed to commit config: ",
        });
        m.append(detail);
        BrailError::Internal(m)
    }
}

} // verus!
