use vstd::prelude::*;

verus! {

#[derive(Debug, Clone, Copy, PartialEq, Eq, Structural)]
pub enum OverlayAnchor {
    TopLeft,
    TopRight,
    BottomLeft,
    BottomRight,
}

/// The adaptive engine's modes. The engine measures real resource usage
/// and either recommends or applies changes; `Custom` only ever warns.
#[derive(Debug, Clone, Copy, PartialEq, Eq, Structural)]
pub enum AdaptiveMode {
    UltraLite,
    LowEnd,
    Balanced,
    Quality,
    Streaming,
    Custom,
}

pub open spec fn mode_name(m: AdaptiveMode) -> Seq<char> {
    match m {
        AdaptiveMode::UltraLite => "Ultra Lite"@,
        AdaptiveMode::LowEnd => "Low-End"@,
        AdaptiveMode::Balanced => "Balanced"@,
        AdaptiveMode::Quality => "Quality"@,
        AdaptiveMode::Streaming => "Streaming"@,
        AdaptiveMode::Custom => "Custom"@,
    }
}

pub open spec fn mode_description(m: AdaptiveMode) -> Seq<char> {
    match m {
        AdaptiveMode::UltraLite => "Minimum resource usage. Preview off, lowest encoder cost."@,
        AdaptiveMode::LowEnd => "Prioritizes game performance over recording quality."@,
        AdaptiveMode::Balanced => "Balances quality against system impact."@,
        AdaptiveMode::Quality => "Prioritizes video quality. Uses more CPU and GPU."@,
        AdaptiveMode::Streaming => "Prioritizes stable delivery over peak quality."@,
        AdaptiveMode::Custom => "Your own settings. The engine only warns, never changes."@,
    }
}

impl AdaptiveMode {
    pub fn display_name(&self) -> (s: &'static str)
        ensures
            s@ == mode_name(*self),
    {
        match self {
            AdaptiveMode::UltraLite => "Ultra Lite",
            AdaptiveMode::LowEnd => "Low-End",
            AdaptiveMode::Balanced => "Balanced",
            AdaptiveMode::Quality => "Quality",
            AdaptiveMode::Streaming => "Streaming",
            AdaptiveMode::Custom => "Custom",
        }
    }

    pub fn description(&self) -> (s: &'static str)
        ensures
            s@ == mode_description(*self),
    {
        match self {
            AdaptiveMode::UltraLite => "Minimum resource usage. Preview off, lowest encoder cost.",
            AdaptiveMode::LowEnd => "Prioritizes game performance over recording quality.",
            AdaptiveMode::Balanced => "Balances quality against system impact.",
            AdaptiveMode::Quality => "Prioritizes video quality. Uses more CPU and GPU.",
            AdaptiveMode::Streaming => "Prioritizes stable delivery over peak quality.",
            AdaptiveMode::Custom => "Your own settings. The engine only warns, never changes.",
        }
    }

    /// Whether the engine may change settings on its own in this mode.
    pub fn allows_auto_apply(&self) -> (b: bool)
        ensures
            b == (*self != AdaptiveMode::Custom),
    {
        match self {
            AdaptiveMode::Custom => false,
            _ => true,
        }
    }
}

#[derive(Debug, Clone, Copy, PartialEq, Eq, Structural)]
pub struct PerformanceSettings {
    pub adaptive_mode: AdaptiveMode,
    /// Master switch for automatic changes; `Custom` still only warns.
    pub auto_optimize: bool,
    /// 0 disables the preview.
    pub preview_fps: u32,
    pub resource_monitoring: bool,
    pub gaming_mode: bool,
    pub hardware_acceleration: bool,
}

impl Default for PerformanceSettings {
    fn default() -> (p: Self)
        ensures
            p.adaptive_mode == AdaptiveMode::Balanced,
            p.auto_optimize,
            p.preview_fps == 10,
            p.resource_monitoring,
            !p.gaming_mode,
            p.hardware_acceleration,
    {
        PerformanceSettings {
            adaptive_mode: AdaptiveMode::Balanced,
            auto_optimize: true,
            preview_fps: 10,
            resource_monitoring: true,
            gaming_mode: false,
            hardware_acceleration: true,
        }
    }
}

#[derive(Debug, Clone, Copy, PartialEq, Eq, Structural)]
pub enum ScreenshotFormat {
    Png,
    Jpeg,
}

pub struct ScreenshotSettings {
    pub format: ScreenshotFormat,
    pub jpeg_quality: u8,
    pub directory: String,
}

pub struct GeneralSettings {
    pub start_with_windows: bool,
    pub minimize_to_tray: bool,
    pub show_notifications: bool,
    /// Tokens: {type} {date} {time} {resolution} {fps}.
    pub filename_format: String,
    pub theme: String,
    pub language: String,
}

impl Default for GeneralSettings {
    fn default() -> (g: Self)
        ensures
            !g.start_with_windows,
            g.minimize_to_tray,
            g.show_notifications,
            g.filename_format@ == "Brail_{date}_{time}"@,
            g.theme@ == "dark"@,
            g.language@ == "en"@,
    {
        GeneralSettings {
            start_with_windows: false,
            minimize_to_tray: true,
            show_notifications: true,
            filename_format: String::from_str("Brail_{date}_{time}"),
            theme: String::from_str("dark"),
            language: String::from_str("en"),
        }
    }
}

} // verus!
