//! The resolved theme and toolkit-configuration model: the fields of the
//! provider's theme that the boundary reads, held as plain values. A theme
//! is immutable once obtained and replaced wholesale on reload.

use vstd::prelude::*;

use crate::color::NormalizedColor;
use crate::font::FontStretch;
use crate::font::FontStyle;
use crate::font::FontWeight;

verus! {

/// The mode a load requests from the theme provider: follow the system
/// preference, or force the dark or light theme.
#[derive(Clone, Copy, Debug, PartialEq, Eq, Structural)]
pub enum CosmicThemeKind {
    SystemPreference,
    Dark,
    Light,
}

/// The color roles of one themed component: its background, the text upon
/// it, and their disabled counterparts.
#[derive(Clone, Copy, Debug, PartialEq, Eq, Structural)]
pub struct ComponentColors {
    pub base: NormalizedColor,
    pub on: NormalizedColor,
    pub disabled: NormalizedColor,
    pub on_disabled: NormalizedColor,
}

/// The color roles of one themed container: its background, the text upon
/// it, and the component drawn within it.
#[derive(Clone, Copy, Debug, PartialEq, Eq, Structural)]
pub struct ContainerColors {
    pub base: NormalizedColor,
    pub on: NormalizedColor,
    pub component: ComponentColors,
}

/// The raw palette slots the boundary reads directly, rather than through a
/// semantic role: the neutral slot an external rendering convention uses
/// for tooltips, and the bright severity colors.
#[derive(Clone, Copy, Debug, PartialEq, Eq, Structural)]
pub struct PaletteSlots {
    pub neutral_2: NormalizedColor,
    pub bright_green: NormalizedColor,
    pub bright_red: NormalizedColor,
    pub bright_orange: NormalizedColor,
}

/// A fully resolved visual theme: its dark and high-contrast flags and the
/// hierarchical palette of semantic color roles that the boundary exposes.
#[derive(Clone, Copy, Debug, PartialEq, Eq, Structural)]
pub struct Theme {
    pub is_dark: bool,
    pub is_high_contrast: bool,
    pub background: ContainerColors,
    pub primary: ContainerColors,
    pub button: ComponentColors,
    pub accent: ComponentColors,
    pub palette: PaletteSlots,
}

/// A font descriptor from the toolkit configuration: a family name and the
/// provider's style, weight and stretch for it.
#[derive(Clone, Debug)]
pub struct FontDescriptor {
    pub family: Vec<u8>,
    pub style: FontStyle,
    pub weight: FontWeight,
    pub stretch: FontStretch,
}

/// The toolkit-level preferences the boundary exposes: the icon theme name,
/// the interface and monospace font descriptors, and whether theme colors
/// apply globally.
#[derive(Clone, Debug)]
pub struct ToolkitConfig {
    pub icon_theme: Vec<u8>,
    pub apply_theme_global: bool,
    pub interface_font: FontDescriptor,
    pub monospace_font: FontDescriptor,
}

/// How a toolkit-configuration load ended: fully loaded, partially loaded
/// with a best-effort value beside the error, or not available at all.
#[derive(Clone, Debug)]
pub enum ConfigLoadOutcome {
    Loaded(ToolkitConfig),
    Partial(ToolkitConfig),
    Unavailable,
}

/// The configuration a load settles on for each outcome: the loaded value,
/// the partial value a failed load still yielded, or the given fallback
/// when no configuration source was available.
pub open spec fn resolved_config(outcome: ConfigLoadOutcome, fallback: ToolkitConfig) -> ToolkitConfig {
    match outcome {
        ConfigLoadOutcome::Loaded(c) => c,
        ConfigLoadOutcome::Partial(c) => c,
        ConfigLoadOutcome::Unavailable => fallback,
    }
}

/// Settle a toolkit-configuration load: a partial failure degrades silently
/// to its best-effort value, a missing source to the fallback; no outcome
/// is an error.
pub fn resolve_config(outcome: ConfigLoadOutcome, fallback: ToolkitConfig) -> (r: ToolkitConfig)
    ensures
        r == resolved_config(outcome, fallback),
{
    match outcome {
        ConfigLoadOutcome::Loaded(c) => c,
        ConfigLoadOutcome::Partial(c) => c,
        ConfigLoadOutcome::Unavailable => fallback,
    }
}

} // verus!
