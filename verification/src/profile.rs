use vstd::prelude::*;

use crate::config::{EncoderBackend, Resolution, VideoCodec};

verus! {

/// What this machine can do, measured once at startup and treated as
/// ground truth by preset filtering and encoder selection.
pub struct CapabilityProfile {
    pub cpu_name: String,
    pub cpu_physical_cores: u32,
    pub cpu_logical_cores: u32,
    pub total_ram_mb: u64,
    pub gpus: Vec<GpuInfo>,
    pub windows_build: u32,
    pub windows_version_name: String,
    pub monitors: Vec<MonitorInfo>,
    pub audio_input_devices: Vec<String>,
    pub audio_output_devices: Vec<String>,
    pub cameras: Vec<String>,
    pub supported_encoders: Vec<EncoderCapability>,
    /// Best-effort starting point, always overridable.
    pub recommended_preset: RecommendedPreset,
}

pub struct GpuInfo {
    pub name: String,
    pub vendor: GpuVendor,
    pub dedicated_vram_mb: u64,
    pub driver_version: String,
    /// True for the adapter screen capture composites against.
    pub is_capture_adapter: bool,
}

#[derive(Debug, Clone, Copy, PartialEq, Eq, Structural)]
pub enum GpuVendor {
    Nvidia,
    Amd,
    Intel,
    Other,
}

pub struct MonitorInfo {
    pub id: String,
    /// Raw monitor handle value, stable across enumeration and use.
    pub handle_id: isize,
    pub friendly_name: String,
    pub resolution: Resolution,
    pub refresh_rate_hz: u32,
    pub is_primary: bool,
    pub dpi_scale_percent: u32,
}

/// An encoder that hardware probing found, with the ceiling it supports.
#[derive(Debug, Clone, Copy, PartialEq, Eq, Structural)]
pub struct EncoderCapability {
    pub backend: EncoderBackend,
    pub codec: VideoCodec,
    pub max_resolution: Resolution,
    pub max_fps_at_max_resolution: u32,
    /// Set only when the encoder was actually opened during probing.
    pub verified: bool,
}

#[derive(Debug, Clone, Copy, PartialEq, Eq, Structural)]
pub enum RecommendedPreset {
    LowEnd720p30,
    Gaming1080p60,
    HighEnd1440p60,
    Custom,
}

/// A global hotkey: modifier flags plus a key name such as "F9" or "M".
pub struct HotkeyCombo {
    pub ctrl: bool,
    pub shift: bool,
    pub alt: bool,
    pub win: bool,
    pub key: String,
}

/// The combination's view: its four modifier flags and its key name.
pub open spec fn combo_view(c: HotkeyCombo) -> (bool, bool, bool, bool, Seq<char>) {
    (c.ctrl, c.shift, c.alt, c.win, c.key@)
}

/// Ctrl+Shift+`key` when `ctrl_shift`, else the bare key.
pub open spec fn combo_spec(ctrl_shift: bool, key: Seq<char>) -> (bool, bool, bool, bool, Seq<char>) {
    (ctrl_shift, ctrl_shift, false, false, key)
}

impl HotkeyCombo {
    fn with_key(ctrl_shift: bool, key: &str) -> (c: Self)
        ensures
            combo_view(c) == combo_spec(ctrl_shift, key@),
    {
        HotkeyCombo { ctrl: ctrl_shift, shift: ctrl_shift, alt: false, win: false, key: String::from_str(key) }
    }
}

/// User-configurable global hotkeys.
pub struct HotkeyBindings {
    pub start_stop_recording: Option<HotkeyCombo>,
    pub start_stop_streaming: Option<HotkeyCombo>,
    pub save_replay: Option<HotkeyCombo>,
    pub toggle_microphone_mute: Option<HotkeyCombo>,
    pub toggle_desktop_audio_mute: Option<HotkeyCombo>,
    pub toggle_webcam: Option<HotkeyCombo>,
    pub pause_resume_recording: Option<HotkeyCombo>,
    pub take_screenshot: Option<HotkeyCombo>,
}

/// The view of an optional binding.
pub open spec fn binding_view(b: Option<HotkeyCombo>) -> Option<(bool, bool, bool, bool, Seq<char>)> {
    match b {
        Some(c) => Some(combo_view(c)),
        None => None,
    }
}

impl Default for HotkeyBindings {
    fn default() -> (b: Self)
        ensures
            binding_view(b.start_stop_recording) == Some(combo_spec(true, "F9"@)),
            binding_view(b.start_stop_streaming) == Some(combo_spec(true, "F10"@)),
            binding_view(b.save_replay) == Some(combo_spec(false, "F11"@)),
            binding_view(b.toggle_microphone_mute) == Some(combo_spec(true, "M"@)),
            binding_view(b.toggle_desktop_audio_mute) == Some(combo_spec(true, "D"@)),
            b.toggle_webcam is None,
            binding_view(b.pause_resume_recording) == Some(combo_spec(true, "F8"@)),
            binding_view(b.take_screenshot) == Some(combo_spec(false, "F12"@)),
    {
        HotkeyBindings {
            start_stop_recording: Some(HotkeyCombo::with_key(true, "F9")),
            start_stop_streaming: Some(HotkeyCombo::with_key(true, "F10")),
            save_replay: Some(HotkeyCombo::with_key(false, "F11")),
            toggle_microphone_mute: Some(HotkeyCombo::with_key(true, "M")),
            toggle_desktop_audio_mute: Some(HotkeyCombo::with_key(true, "D")),
            toggle_webcam: None,
            pause_resume_recording: Some(HotkeyCombo::with_key(true, "F8")),
            take_screenshot: Some(HotkeyCombo::with_key(false, "F12")),
        }
    }
}

} // verus!
