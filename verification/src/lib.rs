//! Theme and toolkit-configuration bridge: a lazily loaded cache of the
//! active theme, quantized color records, font property codes, and
//! null-terminated string export for native callers.

mod cache;
mod color;
mod export;
mod font;
mod snapshot;
mod theme;

pub use cache::ThemeCache;
pub use color::CHANNEL_ONE;
pub use color::CosmicColor;
pub use color::NormalizedColor;
pub use color::quantize;
pub use color::quantized;
pub use color::lemma_quantize_unit_interval;
pub use color::lemma_quantize_at_one;
pub use theme::ComponentColors;
pub use theme::CosmicThemeKind;
pub use theme::ConfigLoadOutcome;
pub use theme::ContainerColors;
pub use theme::FontDescriptor;
pub use theme::PaletteSlots;
pub use theme::Theme;
pub use theme::ToolkitConfig;
pub use theme::resolve_config;
pub use theme::resolved_config;
pub use snapshot::CosmicExtendedPalette;
pub use snapshot::CosmicFont;
pub use snapshot::CosmicPalette;
pub use snapshot::extended_palette_matches;
pub use snapshot::font_for_kind;
pub use snapshot::font_matches;
pub use snapshot::palette_matches;
pub use export::ExportedString;
pub use export::export;
pub use export::has_nul;
pub use export::lemma_export_round_trip;
pub use export::read_exported;
pub use export::release;
pub use font::CosmicFontKind;
pub use font::CosmicFontStyle;
pub use font::FontStretch;
pub use font::FontStyle;
pub use font::FontWeight;
pub use font::style_code;
pub use font::style_coded;
pub use font::stretch_code;
pub use font::stretch_coded;
pub use font::weight_code;
pub use font::weight_coded;
pub use font::lemma_style_code_injective;
pub use font::lemma_stretch_code_injective;
pub use font::lemma_weight_code_injective;
