//! Player-facing display options, each cycled by a menu button.

use vstd::prelude::*;

verus! {

/// An option a menu button steps through, wrapping around after the last.
pub trait SettingsCycleOption: Sized {
    spec fn spec_next(self) -> Self;

    fn next(&self) -> (r: Self)
        ensures
            r == self.spec_next(),
    ;
}

/// Frame rate cap.
#[derive(Clone, Copy, Debug, PartialEq, Eq, Structural, Default)]
pub enum FrameLimitOption {
    #[default]
    Off,
    Cinematic,
    Standard,
    High,
}

impl FrameLimitOption {
    pub open spec fn spec_label(self) -> Seq<char> {
        match self {
            FrameLimitOption::Off => "Infinite"@,
            FrameLimitOption::Cinematic => "Cinematic"@,
            FrameLimitOption::Standard => "Standard"@,
            FrameLimitOption::High => "High"@,
        }
    }

    pub fn label(&self) -> (r: &'static str)
        ensures
            r@ == self.spec_label(),
    {
        match self {
            FrameLimitOption::Off => "Infinite",
            FrameLimitOption::Cinematic => "Cinematic",
            FrameLimitOption::Standard => "Standard",
            FrameLimitOption::High => "High",
        }
    }

    /// Frames per second the limiter holds to; none when uncapped.
    pub fn frame_rate(&self) -> (r: Option<u32>)
        ensures
            r == match self {
                FrameLimitOption::Off => Option::<u32>::None,
                FrameLimitOption::Cinematic => Some(30u32),
                FrameLimitOption::Standard => Some(60u32),
                FrameLimitOption::High => Some(120u32),
            },
    {
        match self {
            FrameLimitOption::Off => None,
            FrameLimitOption::Cinematic => Some(30),
            FrameLimitOption::Standard => Some(60),
            FrameLimitOption::High => Some(120),
        }
    }
}

impl SettingsCycleOption for FrameLimitOption {
    open spec fn spec_next(self) -> Self {
        match self {
            FrameLimitOption::Off => FrameLimitOption::Cinematic,
            FrameLimitOption::Cinematic => FrameLimitOption::Standard,
            FrameLimitOption::Standard => FrameLimitOption::High,
            FrameLimitOption::High => FrameLimitOption::Off,
        }
    }

    fn next(&self) -> (r: Self) {
        match self {
            FrameLimitOption::Off => FrameLimitOption::Cinematic,
            FrameLimitOption::Cinematic => FrameLimitOption::Standard,
            FrameLimitOption::Standard => FrameLimitOption::High,
            FrameLimitOption::High => FrameLimitOption::Off,
        }
    }
}

/// How the game window is shown.
#[derive(Clone, Copy, Debug, PartialEq, Eq, Structural, Default)]
pub enum WindowModeOption {
    #[default]
    Windowed,
    BorderlessFullscreen,
    Fullscreen,
}

impl WindowModeOption {
    pub open spec fn spec_label(self) -> Seq<char> {
        match self {
            WindowModeOption::Windowed => "Windowed"@,
            WindowModeOption::BorderlessFullscreen => "Borderless"@,
            WindowModeOption::Fullscreen => "Fullscreen"@,
        }
    }

    pub fn label(&self) -> (r: &'static str)
        ensures
            r@ == self.spec_label(),
    {
        match self {
            WindowModeOption::Windowed => "Windowed",
            WindowModeOption::BorderlessFullscreen => "Borderless",
            WindowModeOption::Fullscreen => "Fullscreen",
        }
    }
}

impl SettingsCycleOption for WindowModeOption {
    open spec fn spec_next(self) -> Self {
        match self {
            WindowModeOption::Windowed => WindowModeOption::BorderlessFullscreen,
            WindowModeOption::BorderlessFullscreen => WindowModeOption::Fullscreen,
            WindowModeOption::Fullscreen => WindowModeOption::Windowed,
        }
    }

    fn next(&self) -> (r: Self) {
        match self {
            WindowModeOption::Windowed => WindowModeOption::BorderlessFullscreen,
            WindowModeOption::BorderlessFullscreen => WindowModeOption::Fullscreen,
            WindowModeOption::Fullscreen => WindowModeOption::Windowed,
        }
    }
}

/// Anti-aliasing: multisampling at some sample count, or temporal.
#[derive(Clone, Copy, Debug, PartialEq, Eq, Structural, Default)]
pub enum AntiAliasOption {
    Off,
    Msaa2,
    #[default]
    Msaa4,
    Msaa8,
    Taa,
}

impl AntiAliasOption {
    pub open spec fn spec_label(self) -> Seq<char> {
        match self {
            AntiAliasOption::Off => "Off"@,
            AntiAliasOption::Msaa2 => "MSAA (x2)"@,
            AntiAliasOption::Msaa4 => "MSAA (X4)"@,
            AntiAliasOption::Msaa8 => "MSAA (X8)"@,
            AntiAliasOption::Taa => "TAA"@,
        }
    }

    pub fn label(&self) -> (r: &'static str)
        ensures
            r@ == self.spec_label(),
    {
        match self {
            AntiAliasOption::Off => "Off",
            AntiAliasOption::Msaa2 => "MSAA (x2)",
            AntiAliasOption::Msaa4 => "MSAA (X4)",
            AntiAliasOption::Msaa8 => "MSAA (X8)",
            AntiAliasOption::Taa => "TAA",
        }
    }

    /// Samples per pixel when the option is multisampling (one when off);
    /// none for temporal anti-aliasing.
    pub fn msaa_samples(&self) -> (r: Option<u32>)
        ensures
            r == match self {
                AntiAliasOption::Off => Some(1u32),
                AntiAliasOption::Msaa2 => Some(2u32),
                AntiAliasOption::Msaa4 => Some(4u32),
                AntiAliasOption::Msaa8 => Some(8u32),
                AntiAliasOption::Taa => Option::<u32>::None,
            },
    {
        match self {
            AntiAliasOption::Off => Some(1),
            AntiAliasOption::Msaa2 => Some(2),
            AntiAliasOption::Msaa4 => Some(4),
            AntiAliasOption::Msaa8 => Some(8),
            AntiAliasOption::Taa => None,
        }
    }

    /// Whether the option is set through multisampling.
    pub fn is_msaa(&self) -> (r: bool)
        ensures
            r == !(self is Taa),
    {
        match self {
            AntiAliasOption::Taa => false,
            _ => true,
        }
    }
}

impl SettingsCycleOption for AntiAliasOption {
    open spec fn spec_next(self) -> Self {
        match self {
            AntiAliasOption::Off => AntiAliasOption::Msaa2,
            AntiAliasOption::Msaa2 => AntiAliasOption::Msaa4,
            AntiAliasOption::Msaa4 => AntiAliasOption::Msaa8,
            AntiAliasOption::Msaa8 => AntiAliasOption::Taa,
            AntiAliasOption::Taa => AntiAliasOption::Off,
        }
    }

    fn next(&self) -> (r: Self) {
        match self {
            AntiAliasOption::Off => AntiAliasOption::Msaa2,
            AntiAliasOption::Msaa2 => AntiAliasOption::Msaa4,
            AntiAliasOption::Msaa4 => AntiAliasOption::Msaa8,
            AntiAliasOption::Msaa8 => AntiAliasOption::Taa,
            AntiAliasOption::Taa => AntiAliasOption::Off,
        }
    }
}

/// The saved display settings.
#[derive(Clone, Copy, Debug, PartialEq, Eq, Structural, Default)]
pub struct Settings {
    pub frame_limit: FrameLimitOption,
    pub window_mode: WindowModeOption,
    pub anti_alias: AntiAliasOption,
}

} // verus!
