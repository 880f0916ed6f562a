use tui_shimmer::color::{color_to_rgb, indexed_to_rgb, Rgb, TermColor};
use tui_shimmer::intensity::{blend_rgb, intensity_for_distance, style_for_level};
use tui_shimmer::style::ShimmerStyle;

fn rgb(r: u8, g: u8, b: u8) -> Rgb {
    Rgb { r, g, b }
}

#[test]
fn indexed_ansi_colors() {
    assert_eq!(indexed_to_rgb(0), rgb(0, 0, 0));
    assert_eq!(indexed_to_rgb(1), rgb(170, 0, 0));
    assert_eq!(indexed_to_rgb(7), rgb(170, 170, 170));
    assert_eq!(indexed_to_rgb(8), rgb(85, 85, 85));
    assert_eq!(indexed_to_rgb(15), rgb(255, 255, 255));
}

#[test]
fn indexed_color_cube() {
    assert_eq!(indexed_to_rgb(16), rgb(0, 0, 0));
    assert_eq!(indexed_to_rgb(21), rgb(0, 0, 255));
    assert_eq!(indexed_to_rgb(196), rgb(255, 0, 0));
    assert_eq!(indexed_to_rgb(110), rgb(135, 175, 215));
    assert_eq!(indexed_to_rgb(231), rgb(255, 255, 255));
}

#[test]
fn indexed_grayscale_ramp() {
    assert_eq!(indexed_to_rgb(232), rgb(8, 8, 8));
    assert_eq!(indexed_to_rgb(243), rgb(118, 118, 118));
    assert_eq!(indexed_to_rgb(255), rgb(238, 238, 238));
}

#[test]
fn color_to_rgb_named_and_reset() {
    assert_eq!(color_to_rgb(TermColor::Reset), None);
    assert_eq!(color_to_rgb(TermColor::Black), Some(rgb(0, 0, 0)));
    assert_eq!(color_to_rgb(TermColor::Red), Some(rgb(170, 0, 0)));
    assert_eq!(color_to_rgb(TermColor::DarkGray), Some(rgb(85, 85, 85)));
    assert_eq!(color_to_rgb(TermColor::White), Some(rgb(255, 255, 255)));
    assert_eq!(color_to_rgb(TermColor::Rgb(1, 2, 3)), Some(rgb(1, 2, 3)));
    assert_eq!(color_to_rgb(TermColor::Indexed(196)), Some(rgb(255, 0, 0)));
}

#[test]
fn intensity_table_values() {
    assert_eq!(intensity_for_distance(0), 1_000_000_000);
    assert_eq!(intensity_for_distance(1), 904_508_497);
    assert_eq!(intensity_for_distance(2), 654_508_497);
    assert_eq!(intensity_for_distance(3), 345_491_503);
    assert_eq!(intensity_for_distance(4), 95_491_503);
    assert_eq!(intensity_for_distance(5), 0);
    assert_eq!(intensity_for_distance(6), 0);
    assert_eq!(intensity_for_distance(1000), 0);
}

#[test]
fn intensity_profile_monotone() {
    let mut prev = intensity_for_distance(0);
    assert_eq!(prev, 1_000_000_000);
    for dist in 1..10usize {
        let cur = intensity_for_distance(dist);
        assert!(cur < 1_000_000_000);
        assert!(cur <= prev);
        prev = cur;
    }
    assert_eq!(intensity_for_distance(5), 0);
}

#[test]
fn intensity_matches_cosine_formula() {
    // 0.5 * (1 + cos(pi * d / 5)), in parts per billion.
    for dist in 0..=5usize {
        let exact = 0.5 * (1.0 + (std::f64::consts::PI * dist as f64 / 5.0).cos());
        let ppb = intensity_for_distance(dist) as f64 / 1e9;
        assert!((exact - ppb).abs() < 1e-9);
    }
}

#[test]
fn blend_endpoints() {
    assert_eq!(blend_rgb(rgb(12, 34, 56), 0), rgb(12, 34, 56));
    assert_eq!(blend_rgb(rgb(12, 34, 56), 1_000_000_000), rgb(255, 255, 255));
}

#[test]
fn blend_rounds_to_nearest() {
    // 0 + 255 * 0.9 = 229.5 rounds up to 230.
    assert_eq!(blend_rgb(rgb(0, 0, 0), 900_000_000), rgb(230, 230, 230));
    // 128 + 127 * 0.9 = 242.3 rounds down to 242.
    assert_eq!(blend_rgb(rgb(128, 128, 128), 900_000_000), rgb(242, 242, 242));
}

#[test]
fn fallback_tiers() {
    let base = ShimmerStyle { fg: None, bold: false, dim: false };
    let dim = style_for_level(0, &base);
    assert_eq!(dim.fg, Some(TermColor::DarkGray));
    assert!(dim.dim);
    assert!(!dim.bold);

    let still_dim = style_for_level(199_999_999, &base);
    assert_eq!(still_dim.fg, Some(TermColor::DarkGray));
    assert!(still_dim.dim);

    let plain = style_for_level(200_000_000, &base);
    assert_eq!(plain.fg, Some(TermColor::Gray));
    assert!(!plain.dim);
    assert!(!plain.bold);

    let still_plain = style_for_level(599_999_999, &base);
    assert_eq!(still_plain.fg, Some(TermColor::Gray));

    let bright = style_for_level(600_000_000, &base);
    assert_eq!(bright.fg, Some(TermColor::White));
    assert!(bright.bold);
    assert!(!bright.dim);
}

#[test]
fn fallback_keeps_base_modifiers() {
    let base = ShimmerStyle { fg: Some(TermColor::Blue), bold: true, dim: true };
    let plain = style_for_level(300_000_000, &base);
    assert_eq!(plain.fg, Some(TermColor::Gray));
    assert!(plain.bold);
    assert!(plain.dim);
}
