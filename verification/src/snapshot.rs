//! The fixed-layout records the boundary fills in place: the palette and
//! extended palette of quantized colors, and the font record with its
//! exported family name. Each is a plain record with no hidden state, so a
//! native caller can declare a matching layout independently.

use vstd::prelude::*;

use crate::color::CosmicColor;
use crate::export::ExportedString;
use crate::export::has_nul;
use crate::font::CosmicFontKind;
use crate::font::CosmicFontStyle;
use crate::font::style_coded;
use crate::font::stretch_coded;
use crate::font::weight_coded;
use crate::theme::FontDescriptor;
use crate::theme::Theme;
use crate::theme::ToolkitConfig;

verus! {

/// The palette of semantic color roles handed to native callers.
#[derive(Clone, Copy, Debug, PartialEq, Eq, Structural)]
pub struct CosmicPalette {
    pub window: CosmicColor,
    pub window_text: CosmicColor,
    pub window_text_disabled: CosmicColor,
    pub window_component: CosmicColor,
    pub background: CosmicColor,
    pub text: CosmicColor,
    pub text_disabled: CosmicColor,
    pub component: CosmicColor,
    pub component_text: CosmicColor,
    pub component_text_disabled: CosmicColor,
    pub button: CosmicColor,
    pub button_text: CosmicColor,
    pub button_text_disabled: CosmicColor,
    pub tooltip: CosmicColor,
    pub accent: CosmicColor,
    pub accent_text: CosmicColor,
    pub accent_disabled: CosmicColor,
}

/// The severity colors handed to native callers.
#[derive(Clone, Copy, Debug, PartialEq, Eq, Structural)]
pub struct CosmicExtendedPalette {
    pub success: CosmicColor,
    pub destructive: CosmicColor,
    pub warning: CosmicColor,
}

/// The font record handed to native callers: the exported family name (or
/// nothing, when export failed), the style code, and the numeric weight and
/// stretch codes.
#[derive(Clone, Debug)]
pub struct CosmicFont {
    pub family: Option<ExportedString>,
    pub style: CosmicFontStyle,
    pub weight: i32,
    pub stretch: i32,
}

/// Every role of the palette record is the quantization of its source role
/// in the theme. The tooltip is deliberately sourced from the raw
/// `neutral_2` palette slot rather than a semantic role, matching an
/// external rendering library's convention.
pub open spec fn palette_matches(p: CosmicPalette, t: Theme) -> bool {
    &&& p.window.is_quantization_of(t.background.base)
    &&& p.window_text.is_quantization_of(t.background.on)
    &&& p.window_text_disabled.is_quantization_of(t.background.component.on_disabled)
    &&& p.window_component.is_quantization_of(t.background.component.base)
    &&& p.background.is_quantization_of(t.primary.base)
    &&& p.text.is_quantization_of(t.primary.on)
    &&& p.text_disabled.is_quantization_of(t.primary.component.on_disabled)
    &&& p.component.is_quantization_of(t.primary.component.base)
    &&& p.component_text.is_quantization_of(t.primary.component.on)
    &&& p.component_text_disabled.is_quantization_of(t.primary.component.on_disabled)
    &&& p.button.is_quantization_of(t.button.base)
    &&& p.button_text.is_quantization_of(t.button.on)
    &&& p.button_text_disabled.is_quantization_of(t.button.on_disabled)
    &&& p.tooltip.is_quantization_of(t.palette.neutral_2)
    &&& p.accent.is_quantization_of(t.accent.base)
    &&& p.accent_text.is_quantization_of(t.accent.on)
    &&& p.accent_disabled.is_quantization_of(t.accent.disabled)
}

/// Every severity color of the extended palette record is the quantization
/// of its bright palette slot.
pub open spec fn extended_palette_matches(p: CosmicExtendedPalette, t: Theme) -> bool {
    &&& p.success.is_quantization_of(t.palette.bright_green)
    &&& p.destructive.is_quantization_of(t.palette.bright_red)
    &&& p.warning.is_quantization_of(t.palette.bright_orange)
}

/// The configured font a given kind selects.
pub open spec fn font_for_kind(c: ToolkitConfig, kind: CosmicFontKind) -> FontDescriptor {
    match kind {
        CosmicFontKind::Interface => c.interface_font,
        CosmicFontKind::Monospace => c.monospace_font,
    }
}

/// The font record carries the descriptor's mapped codes, and its family is
/// the exported family name: a well-formed null-terminated buffer reading
/// back as the family, or nothing exactly when the family holds an embedded
/// null byte.
pub open spec fn font_matches(f: CosmicFont, d: FontDescriptor) -> bool {
    &&& f.style == style_coded(d.style)
    &&& f.weight as int == weight_coded(d.weight)
    &&& f.stretch as int == stretch_coded(d.stretch)
    &&& match f.family {
        Some(b) => !has_nul(d.family@) && b.wf() && b.text() == d.family@,
        None => has_nul(d.family@),
    }
}

impl Default for CosmicPalette {
    /// Zeroed caller storage, ready to be filled in place.
    fn default() -> (r: CosmicPalette)
        ensures
            r == (CosmicPalette {
                window: CosmicColor { red: 0u8, green: 0u8, blue: 0u8, alpha: 0u8 },
                window_text: CosmicColor { red: 0u8, green: 0u8, blue: 0u8, alpha: 0u8 },
                window_text_disabled: CosmicColor { red: 0u8, green: 0u8, blue: 0u8, alpha: 0u8 },
                window_component: CosmicColor { red: 0u8, green: 0u8, blue: 0u8, alpha: 0u8 },
                background: CosmicColor { red: 0u8, green: 0u8, blue: 0u8, alpha: 0u8 },
                text: CosmicColor { red: 0u8, green: 0u8, blue: 0u8, alpha: 0u8 },
                text_disabled: CosmicColor { red: 0u8, green: 0u8, blue: 0u8, alpha: 0u8 },
                component: CosmicColor { red: 0u8, green: 0u8, blue: 0u8, alpha: 0u8 },
                component_text: CosmicColor { red: 0u8, green: 0u8, blue: 0u8, alpha: 0u8 },
                component_text_disabled: CosmicColor { red: 0u8, green: 0u8, blue: 0u8, alpha: 0u8 },
                button: CosmicColor { red: 0u8, green: 0u8, blue: 0u8, alpha: 0u8 },
                button_text: CosmicColor { red: 0u8, green: 0u8, blue: 0u8, alpha: 0u8 },
                button_text_disabled: CosmicColor { red: 0u8, green: 0u8, blue: 0u8, alpha: 0u8 },
                tooltip: CosmicColor { red: 0u8, green: 0u8, blue: 0u8, alpha: 0u8 },
                accent: CosmicColor { red: 0u8, green: 0u8, blue: 0u8, alpha: 0u8 },
                accent_text: CosmicColor { red: 0u8, green: 0u8, blue: 0u8, alpha: 0u8 },
                accent_disabled: CosmicColor { red: 0u8, green: 0u8, blue: 0u8, alpha: 0u8 },
            }),
    {
        let zero = CosmicColor { red: 0, green: 0, blue: 0, alpha: 0 };
        CosmicPalette {
            window: zero,
            window_text: zero,
            window_text_disabled: zero,
            window_component: zero,
            background: zero,
            text: zero,
            text_disabled: zero,
            component: zero,
            component_text: zero,
            component_text_disabled: zero,
            button: zero,
            button_text: zero,
            button_text_disabled: zero,
            tooltip: zero,
            accent: zero,
            accent_text: zero,
            accent_disabled: zero,
        }
    }
}

impl Default for CosmicExtendedPalette {
    /// Zeroed caller storage, ready to be filled in place.
    fn default() -> (r: CosmicExtendedPalette)
        ensures
            r == (CosmicExtendedPalette {
                success: CosmicColor { red: 0u8, green: 0u8, blue: 0u8, alpha: 0u8 },
                destructive: CosmicColor { red: 0u8, green: 0u8, blue: 0u8, alpha: 0u8 },
                warning: CosmicColor { red: 0u8, green: 0u8, blue: 0u8, alpha: 0u8 },
            }),
    {
        let zero = CosmicColor { red: 0, green: 0, blue: 0, alpha: 0 };
        CosmicExtendedPalette { success: zero, destructive: zero, warning: zero }
    }
}

impl Default for CosmicFont {
    /// Empty caller storage, ready to be filled in place: no family yet,
    /// and the neutral codes.
    fn default() -> (r: CosmicFont)
        ensures
            r.family is None,
            r.style == CosmicFontStyle::Normal,
            r.weight == 0,
            r.stretch == 0,
    {
        CosmicFont { family: None, style: CosmicFontStyle::Normal, weight: 0, stretch: 0 }
    }
}

} // verus!
