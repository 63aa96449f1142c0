//! Theme cache: the lazily populated slot pair holding the active theme and
//! toolkit configuration, with the read and snapshot operations issued
//! against it.
//!
//! Both slots start empty; a load fills each in its own exclusive write, and
//! every other operation only reads. Reading before the first load is a
//! contract violation, not a recoverable condition: each read operation
//! requires its slot to be filled, and the boundary layer that embeds this
//! cache in a process-wide cell aborts on an unloaded read, rather than call
//! in. One cache instance lives for the process lifetime; concurrent access
//! to it is the embedding layer's concern and is confined to the cell that
//! holds the instance.

use vstd::prelude::*;

use crate::color::CosmicColor;
use crate::export::ExportedString;
use crate::export::export;
use crate::export::has_nul;
use crate::font::CosmicFontKind;
use crate::font::style_code;
use crate::font::stretch_code;
use crate::font::weight_code;
use crate::snapshot::CosmicExtendedPalette;
use crate::snapshot::CosmicFont;
use crate::snapshot::CosmicPalette;
use crate::snapshot::extended_palette_matches;
use crate::snapshot::font_for_kind;
use crate::snapshot::font_matches;
use crate::snapshot::palette_matches;
use crate::theme::Theme;
use crate::theme::ToolkitConfig;

verus! {

/// At most one theme and at most one toolkit configuration, each
/// independently present or absent.
pub struct ThemeCache {
    pub theme: Option<Theme>,
    pub config: Option<ToolkitConfig>,
}

impl ThemeCache {
    /// Whether a theme has been loaded, permitting theme reads.
    pub open spec fn theme_loaded(self) -> bool {
        self.theme is Some
    }

    /// Whether a toolkit configuration has been loaded, permitting
    /// configuration reads.
    pub open spec fn config_loaded(self) -> bool {
        self.config is Some
    }

    /// Whether a load has occurred, permitting every read.
    pub open spec fn loaded(self) -> bool {
        self.theme_loaded() && self.config_loaded()
    }

    /// The cached theme.
    pub open spec fn cached_theme(self) -> Theme
        recommends
            self.theme_loaded(),
    {
        self.theme->Some_0
    }

    /// The cached toolkit configuration.
    pub open spec fn cached_config(self) -> ToolkitConfig
        recommends
            self.config_loaded(),
    {
        self.config->Some_0
    }

    /// A cache with both slots empty: no read is permitted until the first
    /// load.
    pub fn new() -> (c: ThemeCache)
        ensures
            !c.theme_loaded(),
            !c.config_loaded(),
    {
        ThemeCache { theme: None, config: None }
    }

    /// Replace the cached theme, leaving the configuration slot untouched:
    /// one of a load's two independent exclusive writes.
    pub fn set_theme(&mut self, theme: Theme)
        ensures
            final(self).theme == Some(theme),
            final(self).config == old(self).config,
    {
        self.theme = Some(theme);
    }

    /// Replace the cached toolkit configuration, leaving the theme slot
    /// untouched: the other of a load's two independent exclusive writes.
    pub fn set_config(&mut self, config: ToolkitConfig)
        ensures
            final(self).config == Some(config),
            final(self).theme == old(self).theme,
    {
        self.config = Some(config);
    }

    /// Load the cache: both resolved values replace whatever was cached
    /// before, and every read is permitted from here on.
    pub fn load(&mut self, theme: Theme, config: ToolkitConfig)
        ensures
            final(self).theme == Some(theme),
            final(self).config == Some(config),
            final(self).loaded(),
    {
        self.set_theme(theme);
        self.set_config(config);
    }

    /// Read the cached theme; a load must have occurred.
    pub fn get_theme(&self) -> (r: &Theme)
        requires
            self.theme_loaded(),
        ensures
            self.theme == Some(*r),
    {
        match &self.theme {
            Some(t) => t,
            None => vstd::pervasive::unreached(),
        }
    }

    /// Read the cached toolkit configuration; a load must have occurred.
    pub fn get_toolkit_config(&self) -> (r: &ToolkitConfig)
        requires
            self.config_loaded(),
        ensures
            self.config == Some(*r),
    {
        match &self.config {
            Some(c) => c,
            None => vstd::pervasive::unreached(),
        }
    }

    /// Whether the cached theme is dark.
    pub fn is_dark(&self) -> (r: bool)
        requires
            self.theme_loaded(),
        ensures
            r == self.cached_theme().is_dark,
    {
        self.get_theme().is_dark
    }

    /// Whether the cached theme is high contrast.
    pub fn is_high_contrast(&self) -> (r: bool)
        requires
            self.theme_loaded(),
        ensures
            r == self.cached_theme().is_high_contrast,
    {
        self.get_theme().is_high_contrast
    }

    /// Whether the cached configuration asks for theme colors to apply
    /// globally.
    pub fn should_apply_colors(&self) -> (r: bool)
        requires
            self.config_loaded(),
        ensures
            r == self.cached_config().apply_theme_global,
    {
        self.get_toolkit_config().apply_theme_global
    }

    /// Export the configured icon theme name for the caller, who must later
    /// release it; yields nothing exactly when the name holds an embedded
    /// null byte.
    pub fn icon_theme(&self) -> (r: Option<ExportedString>)
        requires
            self.config_loaded(),
        ensures
            match r {
                Some(b) => {
                    &&& !has_nul(self.cached_config().icon_theme@)
                    &&& b.wf()
                    &&& b.text() == self.cached_config().icon_theme@
                },
                None => has_nul(self.cached_config().icon_theme@),
            },
    {
        export(&self.get_toolkit_config().icon_theme)
    }

    /// Fill the caller's palette record in place from the cached theme,
    /// quantizing every source role.
    pub fn build_palette(&self, target: &mut CosmicPalette)
        requires
            self.theme_loaded(),
        ensures
            palette_matches(*final(target), self.cached_theme()),
    {
        let theme = self.get_theme();

        target.window = CosmicColor::from_normalized(&theme.background.base);
        target.window_text = CosmicColor::from_normalized(&theme.background.on);
        target.window_text_disabled = CosmicColor::from_normalized(
            &theme.background.component.on_disabled,
        );
        target.window_component = CosmicColor::from_normalized(&theme.background.component.base);
        target.background = CosmicColor::from_normalized(&theme.primary.base);
        target.text = CosmicColor::from_normalized(&theme.primary.on);
        target.text_disabled = CosmicColor::from_normalized(&theme.primary.component.on_disabled);
        target.component = CosmicColor::from_normalized(&theme.primary.component.base);
        target.component_text = CosmicColor::from_normalized(&theme.primary.component.on);
        target.component_text_disabled = CosmicColor::from_normalized(
            &theme.primary.component.on_disabled,
        );
        target.button = CosmicColor::from_normalized(&theme.button.base);
        target.button_text = CosmicColor::from_normalized(&theme.button.on);
        target.button_text_disabled = CosmicColor::from_normalized(&theme.button.on_disabled);
        target.accent = CosmicColor::from_normalized(&theme.accent.base);
        target.accent_text = CosmicColor::from_normalized(&theme.accent.on);
        target.accent_disabled = CosmicColor::from_normalized(&theme.accent.disabled);

        // The tooltip deliberately reads the raw neutral_2 slot, not a
        // semantic role, matching an external rendering library.
        target.tooltip = CosmicColor::from_normalized(&theme.palette.neutral_2);
    }

    /// Fill the caller's extended palette record in place from the cached
    /// theme's bright severity slots.
    pub fn build_extended_palette(&self, target: &mut CosmicExtendedPalette)
        requires
            self.theme_loaded(),
        ensures
            extended_palette_matches(*final(target), self.cached_theme()),
    {
        let theme = self.get_theme();

        target.success = CosmicColor::from_normalized(&theme.palette.bright_green);
        target.destructive = CosmicColor::from_normalized(&theme.palette.bright_red);
        target.warning = CosmicColor::from_normalized(&theme.palette.bright_orange);
    }

    /// Fill the caller's font record in place from the configured font the
    /// kind selects, exporting the family name for the caller to release
    /// later.
    pub fn build_font(&self, kind: CosmicFontKind, target: &mut CosmicFont)
        requires
            self.config_loaded(),
        ensures
            font_matches(*final(target), font_for_kind(self.cached_config(), kind)),
    {
        let config = self.get_toolkit_config();
        let font = match kind {
            CosmicFontKind::Interface => &config.interface_font,
            CosmicFontKind::Monospace => &config.monospace_font,
        };

        target.family = export(&font.family);
        target.style = style_code(font.style);
        target.weight = weight_code(font.weight);
        target.stretch = stretch_code(font.stretch);
    }
}

} // verus!
