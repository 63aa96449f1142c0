use cosmic_theme_bridge::CosmicFontStyle;
use cosmic_theme_bridge::FontStretch;
use cosmic_theme_bridge::FontStyle;
use cosmic_theme_bridge::FontWeight;
use cosmic_theme_bridge::stretch_code;
use cosmic_theme_bridge::style_code;
use cosmic_theme_bridge::weight_code;

#[test]
fn style_codes_cover_every_variant() {
    assert_eq!(style_code(FontStyle::Normal), CosmicFontStyle::Normal);
    assert_eq!(style_code(FontStyle::Italic), CosmicFontStyle::Italic);
    assert_eq!(style_code(FontStyle::Oblique), CosmicFontStyle::Oblique);
}

#[test]
fn weight_codes_cover_every_variant() {
    assert_eq!(weight_code(FontWeight::Thin), 100);
    assert_eq!(weight_code(FontWeight::ExtraLight), 200);
    assert_eq!(weight_code(FontWeight::Light), 300);
    assert_eq!(weight_code(FontWeight::Normal), 400);
    assert_eq!(weight_code(FontWeight::Medium), 500);
    assert_eq!(weight_code(FontWeight::Semibold), 600);
    assert_eq!(weight_code(FontWeight::Bold), 700);
    assert_eq!(weight_code(FontWeight::ExtraBold), 800);
    assert_eq!(weight_code(FontWeight::Black), 900);
}

#[test]
fn stretch_codes_cover_every_variant() {
    assert_eq!(stretch_code(FontStretch::UltraCondensed), 50);
    assert_eq!(stretch_code(FontStretch::ExtraCondensed), 62);
    assert_eq!(stretch_code(FontStretch::Condensed), 75);
    assert_eq!(stretch_code(FontStretch::SemiCondensed), 87);
    assert_eq!(stretch_code(FontStretch::Normal), 100);
    assert_eq!(stretch_code(FontStretch::SemiExpanded), 112);
    assert_eq!(stretch_code(FontStretch::Expanded), 125);
    assert_eq!(stretch_code(FontStretch::ExtraExpanded), 150);
    assert_eq!(stretch_code(FontStretch::UltraExpanded), 200);
}

#[test]
fn weight_codes_are_pairwise_distinct() {
    let codes = [
        weight_code(FontWeight::Thin),
        weight_code(FontWeight::ExtraLight),
        weight_code(FontWeight::Light),
        weight_code(FontWeight::Normal),
        weight_code(FontWeight::Medium),
        weight_code(FontWeight::Semibold),
        weight_code(FontWeight::Bold),
        weight_code(FontWeight::ExtraBold),
        weight_code(FontWeight::Black),
    ];
    for i in 0..codes.len() {
        for j in 0..codes.len() {
            if i != j {
                assert_ne!(codes[i], codes[j]);
            }
        }
    }
}

#[test]
fn stretch_codes_are_pairwise_distinct() {
    let codes = [
        stretch_code(FontStretch::UltraCondensed),
        stretch_code(FontStretch::ExtraCondensed),
        stretch_code(FontStretch::Condensed),
        stretch_code(FontStretch::SemiCondensed),
        stretch_code(FontStretch::Normal),
        stretch_code(FontStretch::SemiExpanded),
        stretch_code(FontStretch::Expanded),
        stretch_code(FontStretch::ExtraExpanded),
        stretch_code(FontStretch::UltraExpanded),
    ];
    for i in 0..codes.len() {
        for j in 0..codes.len() {
            if i != j {
                assert_ne!(codes[i], codes[j]);
            }
        }
    }
}
