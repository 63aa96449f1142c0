//! Font property mapper: total functions from the theme provider's style,
//! weight and stretch vocabularies onto the numeric codes of the common
//! desktop-font convention, so native callers can interpret them without
//! linking the provider's types.

use vstd::prelude::*;

verus! {

/// A font style in the theme provider's vocabulary.
#[derive(Clone, Copy, Debug, PartialEq, Eq, Structural)]
pub enum FontStyle {
    Normal,
    Italic,
    Oblique,
}

/// The style code handed across the boundary, mirroring the provider's
/// three style variants one-to-one.
#[derive(Clone, Copy, Debug, PartialEq, Eq, Structural)]
pub enum CosmicFontStyle {
    Normal,
    Italic,
    Oblique,
}

/// A font weight in the theme provider's vocabulary.
#[derive(Clone, Copy, Debug, PartialEq, Eq, Structural)]
pub enum FontWeight {
    Thin,
    ExtraLight,
    Light,
    Normal,
    Medium,
    Semibold,
    Bold,
    ExtraBold,
    Black,
}

/// A font stretch in the theme provider's vocabulary.
#[derive(Clone, Copy, Debug, PartialEq, Eq, Structural)]
pub enum FontStretch {
    UltraCondensed,
    ExtraCondensed,
    Condensed,
    SemiCondensed,
    Normal,
    SemiExpanded,
    Expanded,
    ExtraExpanded,
    UltraExpanded,
}

/// Which of the two configured fonts a caller asks for.
#[derive(Clone, Copy, Debug, PartialEq, Eq, Structural)]
pub enum CosmicFontKind {
    Interface,
    Monospace,
}

/// The style code for each provider style.
pub open spec fn style_coded(s: FontStyle) -> CosmicFontStyle {
    match s {
        FontStyle::Normal => CosmicFontStyle::Normal,
        FontStyle::Italic => CosmicFontStyle::Italic,
        FontStyle::Oblique => CosmicFontStyle::Oblique,
    }
}

/// The numeric weight code for each provider weight, following the common
/// desktop-font convention (100 for the thinnest through 900 for the
/// blackest).
pub open spec fn weight_coded(w: FontWeight) -> int {
    match w {
        FontWeight::Thin => 100,
        FontWeight::ExtraLight => 200,
        FontWeight::Light => 300,
        FontWeight::Normal => 400,
        FontWeight::Medium => 500,
        FontWeight::Semibold => 600,
        FontWeight::Bold => 700,
        FontWeight::ExtraBold => 800,
        FontWeight::Black => 900,
    }
}

/// The numeric stretch code for each provider stretch, following the common
/// desktop-font convention (100 for normal, smaller when condensed, larger
/// when expanded).
pub open spec fn stretch_coded(s: FontStretch) -> int {
    match s {
        FontStretch::UltraCondensed => 50,
        FontStretch::ExtraCondensed => 62,
        FontStretch::Condensed => 75,
        FontStretch::SemiCondensed => 87,
        FontStretch::Normal => 100,
        FontStretch::SemiExpanded => 112,
        FontStretch::Expanded => 125,
        FontStretch::ExtraExpanded => 150,
        FontStretch::UltraExpanded => 200,
    }
}

/// Map a provider style onto its boundary style code.
pub fn style_code(s: FontStyle) -> (r: CosmicFontStyle)
    ensures
        r == style_coded(s),
{
    match s {
        FontStyle::Normal => CosmicFontStyle::Normal,
        FontStyle::Italic => CosmicFontStyle::Italic,
        FontStyle::Oblique => CosmicFontStyle::Oblique,
    }
}

/// Map a provider weight onto its numeric code.
pub fn weight_code(w: FontWeight) -> (r: i32)
    ensures
        r as int == weight_coded(w),
{
    match w {
        FontWeight::Thin => 100,
        FontWeight::ExtraLight => 200,
        FontWeight::Light => 300,
        FontWeight::Normal => 400,
        FontWeight::Medium => 500,
        FontWeight::Semibold => 600,
        FontWeight::Bold => 700,
        FontWeight::ExtraBold => 800,
        FontWeight::Black => 900,
    }
}

/// Map a provider stretch onto its numeric code.
pub fn stretch_code(s: FontStretch) -> (r: i32)
    ensures
        r as int == stretch_coded(s),
{
    match s {
        FontStretch::UltraCondensed => 50,
        FontStretch::ExtraCondensed => 62,
        FontStretch::Condensed => 75,
        FontStretch::SemiCondensed => 87,
        FontStretch::Normal => 100,
        FontStretch::SemiExpanded => 112,
        FontStretch::Expanded => 125,
        FontStretch::ExtraExpanded => 150,
        FontStretch::UltraExpanded => 200,
    }
}

/// The style mapping is a bijection: it is total by construction (the match
/// is exhaustive), and distinct styles receive distinct codes.
pub proof fn lemma_style_code_injective(a: FontStyle, b: FontStyle)
    ensures
        style_coded(a) == style_coded(b) ==> a == b,
{
}

/// The weight mapping is a bijection onto its nine codes: it is total by
/// construction, and distinct weights receive distinct codes.
pub proof fn lemma_weight_code_injective(a: FontWeight, b: FontWeight)
    ensures
        weight_coded(a) == weight_coded(b) ==> a == b,
{
}

/// The stretch mapping is a bijection onto its nine codes: it is total by
/// construction, and distinct stretches receive distinct codes.
pub proof fn lemma_stretch_code_injective(a: FontStretch, b: FontStretch)
    ensures
        stretch_coded(a) == stretch_coded(b) ==> a == b,
{
}

} // verus!
