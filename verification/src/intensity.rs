//! The per-character highlight intensity and its mapping to a style.
//!
//! Intensity follows a raised-cosine falloff over the band half-width: 1.0 at
//! the sweep center, 0.0 at and beyond the half-width. Because the band
//! half-width is the fixed constant 5, the falloff takes only six values, so
//! it is held here as an exact fixed-point table in parts per billion
//! (`0.5 * (1 + cos(pi * d / 5))`, rounded to the nearest billionth).
//!
//! On true-color terminals the intensity, attenuated to 90% so the highlight
//! never fully washes out the base hue, linearly blends the base foreground
//! toward white. On restricted terminals it is quantized into three tiers:
//! dim gray, plain gray, bold white.

use vstd::prelude::*;

use crate::color::{spec_color_to_rgb, color_to_rgb, Rgb, TermColor};
use crate::style::ShimmerStyle;
use crate::BAND_HALF_WIDTH;
use crate::SHIMMER_PADDING;

verus! {

/// Distance between a character's virtual position (its index plus the
/// padding) and the sweep center.
pub open spec fn spec_distance(index: int, pos: int) -> int {
    let delta = index + SHIMMER_PADDING - pos;
    if delta >= 0 {
        delta
    } else {
        -delta
    }
}

/// The raised-cosine intensity at an integer distance from the sweep center,
/// in parts per billion: `0.5 * (1 + cos(pi * dist / 5))` rounded to the
/// nearest billionth, and 0 beyond the band half-width.
pub open spec fn spec_intensity_ppb(dist: int) -> int {
    if dist == 0 {
        1_000_000_000
    } else if dist == 1 {
        904_508_497
    } else if dist == 2 {
        654_508_497
    } else if dist == 3 {
        345_491_503
    } else if dist == 4 {
        95_491_503
    } else {
        0
    }
}

/// The blend amount for the true-color path: the intensity clamped to one
/// whole unit, then attenuated to 90%.
pub open spec fn spec_blend_amount(intensity: int) -> int {
    let capped = if intensity > 1_000_000_000 {
        1_000_000_000
    } else if intensity < 0 {
        0
    } else {
        intensity
    };
    capped * 9 / 10
}

/// One channel linearly interpolated from the base value toward white (255)
/// by `amount` parts per billion, rounded to the nearest integer.
pub open spec fn spec_blend_channel(base: u8, amount: int) -> u8 {
    ((base * 1_000_000_000 + (255 - base) * amount + 500_000_000) / 1_000_000_000) as u8
}

/// All three channels of the base color blended toward white.
pub open spec fn spec_blend_rgb(base: Rgb, amount: int) -> Rgb {
    Rgb {
        r: spec_blend_channel(base.r, amount),
        g: spec_blend_channel(base.g, amount),
        b: spec_blend_channel(base.b, amount),
    }
}

/// The RGB the blend starts from: the base style's foreground converted to
/// RGB, or neutral gray when the foreground is unset or the reset sentinel.
pub open spec fn spec_base_rgb(base: ShimmerStyle) -> Rgb {
    match base.fg {
        Some(color) => match spec_color_to_rgb(color) {
            Some(rgb) => rgb,
            None => Rgb { r: 128, g: 128, b: 128 },
        },
        None => Rgb { r: 128, g: 128, b: 128 },
    }
}

/// The style of one character on the true-color path: foreground blended
/// toward white by the attenuated intensity, bold added while the intensity
/// is non-zero.
pub open spec fn spec_true_color_style(base: ShimmerStyle, intensity: int) -> ShimmerStyle {
    let blended = spec_blend_rgb(spec_base_rgb(base), spec_blend_amount(intensity));
    ShimmerStyle {
        fg: Some(TermColor::Rgb(blended.r, blended.g, blended.b)),
        bold: base.bold || intensity > 0,
        dim: base.dim,
    }
}

/// The style of one character on the restricted-palette path: the intensity
/// quantized into three tiers, with thresholds 0.2 and 0.6 of a whole unit.
pub open spec fn spec_fallback_style(base: ShimmerStyle, intensity: int) -> ShimmerStyle {
    if intensity < 200_000_000 {
        ShimmerStyle { fg: Some(TermColor::DarkGray), bold: base.bold, dim: true }
    } else if intensity < 600_000_000 {
        ShimmerStyle { fg: Some(TermColor::Gray), bold: base.bold, dim: base.dim }
    } else {
        ShimmerStyle { fg: Some(TermColor::White), bold: true, dim: base.dim }
    }
}

/// The style computed for the character at `index` when the sweep center
/// stands at `pos`.
pub open spec fn spec_char_style(
    base: ShimmerStyle,
    true_color: bool,
    pos: int,
    index: int,
) -> ShimmerStyle {
    let intensity = spec_intensity_ppb(spec_distance(index, pos));
    if true_color {
        spec_true_color_style(base, intensity)
    } else {
        spec_fallback_style(base, intensity)
    }
}

/// The raised-cosine intensity table, looked up by distance.
pub fn intensity_for_distance(dist: usize) -> (intensity: u64)
    ensures
        intensity as int == spec_intensity_ppb(dist as int),
        intensity <= crate::PHASE_UNIT,
{
    if dist == 0 {
        1_000_000_000
    } else if dist == 1 {
        904_508_497
    } else if dist == 2 {
        654_508_497
    } else if dist == 3 {
        345_491_503
    } else if dist == 4 {
        95_491_503
    } else {
        0
    }
}

/// One channel of the linear blend toward white, in exact fixed-point
/// arithmetic.
fn blend_channel(base: u8, amount: u64) -> (v: u8)
    requires
        amount <= 1_000_000_000,
    ensures
        v == spec_blend_channel(base, amount as int),
{
    let gap: u64 = (255 - base) as u64;
    assert(gap * amount <= gap * 1_000_000_000) by (nonlinear_arith)
        requires
            amount <= 1_000_000_000 && gap <= 255,
    ;
    let total: u64 = (base as u64) * 1_000_000_000 + gap * amount + 500_000_000;
    let q: u64 = total / 1_000_000_000;
    assert(q < 256) by {
        vstd::arithmetic::div_mod::lemma_multiply_divide_lt(
            total as int,
            1_000_000_000,
            256,
        );
    }
    q as u8
}

/// Blends a base color toward pure white by `amount_ppb` parts per billion,
/// rounding each channel to the nearest integer.
pub fn blend_rgb(base: Rgb, amount_ppb: u64) -> (blended: Rgb)
    requires
        amount_ppb <= 1_000_000_000,
    ensures
        blended == spec_blend_rgb(base, amount_ppb as int),
{
    Rgb {
        r: blend_channel(base.r, amount_ppb),
        g: blend_channel(base.g, amount_ppb),
        b: blend_channel(base.b, amount_ppb),
    }
}

/// The RGB the blend starts from, read once per call from the base style.
pub fn base_rgb_of(base_style: &ShimmerStyle) -> (rgb: Rgb)
    ensures
        rgb == spec_base_rgb(*base_style),
{
    match base_style.fg {
        Some(color) => match color_to_rgb(color) {
            Some(rgb) => rgb,
            None => Rgb { r: 128, g: 128, b: 128 },
        },
        None => Rgb { r: 128, g: 128, b: 128 },
    }
}

/// Quantizes an intensity into the three restricted-palette tiers.
pub fn style_for_level(intensity_ppb: u64, base_style: &ShimmerStyle) -> (style: ShimmerStyle)
    ensures
        style == spec_fallback_style(*base_style, intensity_ppb as int),
{
    if intensity_ppb < 200_000_000 {
        ShimmerStyle { fg: Some(TermColor::DarkGray), bold: base_style.bold, dim: true }
    } else if intensity_ppb < 600_000_000 {
        ShimmerStyle { fg: Some(TermColor::Gray), bold: base_style.bold, dim: base_style.dim }
    } else {
        ShimmerStyle { fg: Some(TermColor::White), bold: true, dim: base_style.dim }
    }
}

/// The style of the character at `index` for a sweep center at `pos`.
pub fn style_for_char(
    base_style: &ShimmerStyle,
    base_rgb: Rgb,
    true_color: bool,
    pos: usize,
    index: usize,
) -> (style: ShimmerStyle)
    requires
        index <= usize::MAX - SHIMMER_PADDING,
        base_rgb == spec_base_rgb(*base_style),
    ensures
        style == spec_char_style(*base_style, true_color, pos as int, index as int),
{
    let virtual_pos = index + SHIMMER_PADDING;
    let dist = if virtual_pos >= pos {
        virtual_pos - pos
    } else {
        pos - virtual_pos
    };
    let intensity = intensity_for_distance(dist);
    if true_color {
        let capped = if intensity > 1_000_000_000 {
            1_000_000_000
        } else {
            intensity
        };
        let amount = capped * 9 / 10;
        let blended = blend_rgb(base_rgb, amount);
        ShimmerStyle {
            fg: Some(TermColor::Rgb(blended.r, blended.g, blended.b)),
            bold: base_style.bold || intensity > 0,
            dim: base_style.dim,
        }
    } else {
        style_for_level(intensity, base_style)
    }
}

/// Intensity is symmetric around the sweep center: two characters whose
/// virtual positions stand equally far before and after the center receive
/// the same intensity, and with it the same style.
pub proof fn lemma_intensity_symmetric(
    base: ShimmerStyle,
    true_color: bool,
    pos: int,
    lo: int,
    hi: int,
)
    requires
        pos - (lo + SHIMMER_PADDING) == (hi + SHIMMER_PADDING) - pos,
    ensures
        spec_distance(lo, pos) == spec_distance(hi, pos),
        spec_char_style(base, true_color, pos, lo) == spec_char_style(base, true_color, pos, hi),
{
}

/// The intensity profile: maximal (one whole unit) exactly at distance zero,
/// monotonically non-increasing as the distance grows, and zero at and
/// beyond the band half-width.
pub proof fn lemma_intensity_profile(d1: int, d2: int)
    requires
        0 <= d1 <= d2,
    ensures
        spec_intensity_ppb(0) == 1_000_000_000,
        d1 > 0 ==> spec_intensity_ppb(d1) < 1_000_000_000,
        spec_intensity_ppb(d1) >= spec_intensity_ppb(d2),
        d2 >= BAND_HALF_WIDTH ==> spec_intensity_ppb(d2) == 0,
{
}

/// On the restricted-palette path every character's foreground is one of the
/// three tier colors, whatever the base style and sweep position.
pub proof fn lemma_fallback_palette(base: ShimmerStyle, pos: int, index: int)
    ensures
        spec_char_style(base, false, pos, index).fg == Some(TermColor::DarkGray)
            || spec_char_style(base, false, pos, index).fg == Some(TermColor::Gray)
            || spec_char_style(base, false, pos, index).fg == Some(TermColor::White),
{
}

} // verus!
