use trixel::font::{Font, Glyph, TextStyle};
use trixel::raster::{default_metrics, kerning, metrics, px_dim, rasterize};

/// A small test face at 24 design units per em: 'M' has a 12x14 box, 'A'
/// a 10x14 box, the space an empty box, and 'g' a 2x1 box with mixed
/// coverage values.
fn test_font() -> Font {
    let glyphs = vec![
        Glyph {
            ch: 'A',
            box_w: 10,
            box_h: 14,
            x_off: 1,
            y_off: 2,
            advance: 11,
            coverage: vec![256; 10 * 14],
        },
        Glyph {
            ch: 'M',
            box_w: 12,
            box_h: 14,
            x_off: 0,
            y_off: 2,
            advance: 13,
            coverage: vec![256; 12 * 14],
        },
        Glyph {
            ch: ' ',
            box_w: 0,
            box_h: 0,
            x_off: 0,
            y_off: 0,
            advance: 6,
            coverage: vec![],
        },
        Glyph {
            ch: 'g',
            box_w: 2,
            box_h: 1,
            x_off: 0,
            y_off: 0,
            advance: 3,
            coverage: vec![256, 64],
        },
    ];
    Font { units_per_em: 24, glyphs }
}

#[test]
fn rasterize_sizes_bitmap_to_bounding_box() {
    let font = test_font();
    let bm = rasterize(&font, 24, 'A').expect("'A' has ink");
    assert_eq!(bm.width, 10);
    assert_eq!(bm.height, 14);
    assert_eq!(bm.pixels.len(), 10 * 14 * 4);
}

#[test]
fn rasterize_bitmap_length_is_width_height_channels() {
    let font = test_font();
    for size in [1u16, 7, 24, 48, 101] {
        for ch in ['A', 'M', 'g'] {
            let bm = rasterize(&font, size, ch).expect("glyph has ink");
            assert_eq!(bm.pixels.len(), bm.width as usize * bm.height as usize * 4);
        }
    }
}

#[test]
fn rasterize_scales_with_size() {
    let font = test_font();
    let bm = rasterize(&font, 48, 'A').expect("'A' has ink");
    assert_eq!(bm.width, 20);
    assert_eq!(bm.height, 28);
}

#[test]
fn rasterize_rounds_pixel_box_up() {
    let font = test_font();
    // 10 units * 25 px / 24 units = 10.41..., rounded up to 11.
    let bm = rasterize(&font, 25, 'A').expect("'A' has ink");
    assert_eq!(bm.width, 11);
    assert_eq!(bm.height, 15);
}

#[test]
fn rasterize_space_yields_no_bitmap() {
    let font = test_font();
    assert!(rasterize(&font, 24, ' ').is_none());
}

#[test]
fn rasterize_undefined_character_is_not_an_error() {
    let font = test_font();
    assert!(rasterize(&font, 24, '?').is_none());
}

#[test]
fn rasterize_converts_coverage_to_intensity() {
    let font = test_font();
    // 'g' is a 2x1 box drawn at the design size: full coverage maps to
    // round(256/256 * 255) = 255, coverage 64 to round(64/256 * 255) = 64.
    let bm = rasterize(&font, 24, 'g').expect("'g' has ink");
    assert_eq!(bm.width, 2);
    assert_eq!(bm.height, 1);
    assert_eq!(bm.pixels, vec![255, 255, 255, 255, 64, 64, 64, 64]);
}

#[test]
fn rasterize_replicates_intensity_across_channels() {
    let font = test_font();
    let bm = rasterize(&font, 24, 'A').expect("'A' has ink");
    for px in bm.pixels.chunks(4) {
        assert_eq!(px[0], px[1]);
        assert_eq!(px[0], px[2]);
        assert_eq!(px[0], px[3]);
    }
}

#[test]
fn rasterize_samples_nearest_source_cell_when_upscaling() {
    let font = test_font();
    // 'g' at size 36: 2 units become ceil(2 * 36 / 24) = 3 pixels, which
    // sample source cells 0, 0, 1.
    let bm = rasterize(&font, 36, 'g').expect("'g' has ink");
    assert_eq!(bm.width, 3);
    assert_eq!(bm.height, 2);
    let row: Vec<u8> = bm.pixels[0..12].to_vec();
    assert_eq!(row, vec![255, 255, 255, 255, 255, 255, 255, 255, 64, 64, 64, 64]);
}

#[test]
fn metrics_normalizes_against_reference_box() {
    let font = test_font();
    // 'A' has a 10x14 pixel box at size 24; 'M' a 12x14 one.
    let m = metrics(&font, 24, 'A');
    assert_eq!(m.width.num, 10);
    assert_eq!(m.width.den, 12);
    assert_eq!(m.height.num, 14);
    assert_eq!(m.height.den, 14);
    let w = m.width.num as f64 / m.width.den as f64;
    assert!((w - 0.833).abs() < 0.001);
    let h = m.height.num as f64 / m.height.den as f64;
    assert_eq!(h, 1.0);
}

#[test]
fn metrics_of_reference_character_are_unit() {
    let font = test_font();
    for size in [1u16, 12, 24, 48, 1000] {
        let m = metrics(&font, size, 'M');
        assert_eq!(m.width.num as u64, m.width.den);
        assert_eq!(m.height.num as u64, m.height.den);
        assert_eq!(m.width.num as f64 / m.width.den as f64, 1.0);
        assert_eq!(m.height.num as f64 / m.height.den as f64, 1.0);
    }
}

#[test]
fn metrics_offsets_and_advance_are_em_fractions() {
    let font = test_font();
    let m = metrics(&font, 24, 'A');
    assert_eq!((m.x_offset.num, m.x_offset.den), (1, 24));
    assert_eq!((m.y_offset.num, m.y_offset.den), (2, 24));
    assert_eq!((m.x_advance.num, m.x_advance.den), (11, 24));
}

#[test]
fn metrics_fall_back_without_ink() {
    let font = test_font();
    let m = metrics(&font, 24, ' ');
    assert_eq!(m, default_metrics());
    assert_eq!((m.width.num, m.width.den), (1, 1));
    assert_eq!((m.height.num, m.height.den), (1, 1));
    assert_eq!((m.x_offset.num, m.x_offset.den), (0, 1));
    assert_eq!((m.y_offset.num, m.y_offset.den), (1, 1));
    assert_eq!((m.x_advance.num, m.x_advance.den), (1, 1));
}

#[test]
fn metrics_fall_back_without_reference_character() {
    let glyphs = vec![Glyph {
        ch: 'A',
        box_w: 10,
        box_h: 14,
        x_off: 1,
        y_off: 2,
        advance: 11,
        coverage: vec![256; 10 * 14],
    }];
    let font = Font { units_per_em: 24, glyphs };
    let m = metrics(&font, 24, 'A');
    assert_eq!(m, default_metrics());
}

#[test]
fn metrics_fallback_is_non_negative() {
    let font = test_font();
    let m = metrics(&font, 24, '?');
    assert!(m.width.num >= 0 && m.width.den > 0);
    assert!(m.height.num >= 0 && m.height.den > 0);
}

#[test]
fn metrics_are_idempotent() {
    let font = test_font();
    let style = TextStyle { font: &font, size: 24 };
    let m1 = metrics(style.font, style.size, 'A');
    let m2 = metrics(style.font, style.size, 'A');
    assert_eq!(m1, m2);
    let n1 = metrics(style.font, style.size, ' ');
    let n2 = metrics(style.font, style.size, ' ');
    assert_eq!(n1, n2);
}

#[test]
fn kerning_policy_is_zero() {
    let font = test_font();
    let k = kerning(&font, 24, 'A', 'M');
    assert_eq!(k.num, 0);
    assert_eq!(k.den, 1);
}

#[test]
fn px_dim_matches_hand_computation() {
    assert_eq!(px_dim(10, 24, 24), 10);
    assert_eq!(px_dim(10, 25, 24), 11);
    assert_eq!(px_dim(1, 1, 1000), 1);
    assert_eq!(px_dim(1000, 1000, 1000), 1000);
}
