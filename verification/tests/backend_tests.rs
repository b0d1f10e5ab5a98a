use trixel::backend::Backend;
use trixel::font::{Font, Glyph, TextStyle};
use trixel::frame::{Blend, Frame, Uv};
use trixel::transform::{flip_y, Transform, FX_ONE};

fn test_font() -> Font {
    let glyphs = vec![
        Glyph {
            ch: 'A',
            box_w: 10,
            box_h: 14,
            x_off: 1,
            y_off: 2,
            advance: 11,
            coverage: vec![256; 10 * 14],
        },
        Glyph {
            ch: 'M',
            box_w: 12,
            box_h: 14,
            x_off: 0,
            y_off: 2,
            advance: 13,
            coverage: vec![256; 12 * 14],
        },
        Glyph {
            ch: ' ',
            box_w: 0,
            box_h: 0,
            x_off: 0,
            y_off: 0,
            advance: 6,
            coverage: vec![],
        },
    ];
    Font { units_per_em: 24, glyphs }
}

fn quad_uvs() -> [Uv; 4] {
    [
        Uv { u: 0, v: 0 },
        Uv { u: 0, v: FX_ONE },
        Uv { u: FX_ONE, v: 0 },
        Uv { u: FX_ONE, v: FX_ONE },
    ]
}

#[test]
fn aspect_ratio_is_exact_width_over_height() {
    let mut backend = Backend::new();
    let img = backend.register_image(300, 200);
    let r = backend.image_aspect_ratio(&img);
    assert_eq!(r.num, 300);
    assert_eq!(r.den, 200);
    assert_eq!(r.num as f64 / r.den as f64, 1.5);
}

#[test]
fn aspect_ratio_of_square_image_is_one() {
    let mut backend = Backend::new();
    let img = backend.register_image(64, 64);
    let r = backend.image_aspect_ratio(&img);
    assert_eq!(r.num as u64, r.den);
}

#[test]
fn register_image_mints_fresh_handles() {
    let mut backend = Backend::new();
    let a = backend.register_image(4, 4);
    let b = backend.register_image(8, 2);
    assert_ne!(a.handle, b.handle);
    assert_eq!((a.width, a.height), (4, 4));
    assert_eq!((b.width, b.height), (8, 2));
}

#[test]
fn draw_triangle_appends_one_alpha_blended_command() {
    let mut backend = Backend::new();
    let img = backend.register_image(4, 4);
    let mut frame = Frame::begin();
    let t = Transform::identity();
    let [uv00, uv01, uv10, _] = quad_uvs();
    backend.draw_triangle(&mut frame, &img, &t, [uv00, uv01, uv10]);
    assert_eq!(frame.triangles.len(), 1);
    let cmd = &frame.triangles[0];
    assert_eq!(cmd.texture, img.handle);
    assert!(matches!(cmd.blend, Blend::Alpha));
    assert_eq!((cmd.a.u, cmd.a.v), (0, 0));
    assert_eq!((cmd.b.u, cmd.b.v), (0, FX_ONE));
    assert_eq!((cmd.c.u, cmd.c.v), (FX_ONE, 0));
}

#[test]
fn unit_quad_uvs_map_to_canonical_corners() {
    // Drawing the two quad triangles under the identity transform puts
    // their six vertices exactly on the corners of [-1, 1]^2, covering it.
    let mut backend = Backend::new();
    let img = backend.register_image(4, 4);
    let mut frame = Frame::begin();
    let t = Transform::identity();
    let [uv00, uv01, uv10, uv11] = quad_uvs();
    backend.draw_triangle(&mut frame, &img, &t, [uv00, uv01, uv10]);
    backend.draw_triangle(&mut frame, &img, &t, [uv01, uv10, uv11]);
    assert_eq!(frame.triangles.len(), 2);
    let t1 = &frame.triangles[0];
    let t2 = &frame.triangles[1];
    assert_eq!((t1.a.x, t1.a.y), (-FX_ONE, -FX_ONE));
    assert_eq!((t1.b.x, t1.b.y), (-FX_ONE, FX_ONE));
    assert_eq!((t1.c.x, t1.c.y), (FX_ONE, -FX_ONE));
    assert_eq!((t2.a.x, t2.a.y), (-FX_ONE, FX_ONE));
    assert_eq!((t2.b.x, t2.b.y), (FX_ONE, -FX_ONE));
    assert_eq!((t2.c.x, t2.c.y), (FX_ONE, FX_ONE));
    // The two triangles share the diagonal and together list each of the
    // four corners of the quad.
    let mut corners: Vec<(i64, i64)> = vec![
        (t1.a.x, t1.a.y),
        (t1.b.x, t1.b.y),
        (t1.c.x, t1.c.y),
        (t2.c.x, t2.c.y),
    ];
    corners.sort();
    assert_eq!(
        corners,
        vec![
            (-FX_ONE, -FX_ONE),
            (-FX_ONE, FX_ONE),
            (FX_ONE, -FX_ONE),
            (FX_ONE, FX_ONE),
        ]
    );
}

#[test]
fn draw_glyph_without_ink_is_a_no_op() {
    let font = test_font();
    let style = TextStyle { font: &font, size: 24 };
    let mut backend = Backend::new();
    let mut frame = Frame::begin();
    let t = Transform::identity();
    let handle_before = backend.next_handle;
    backend.draw_glyph(&mut frame, &style, ' ', &t);
    assert_eq!(frame.triangles.len(), 0);
    assert_eq!(frame.glyph_textures.len(), 0);
    assert_eq!(backend.next_handle, handle_before);
}

#[test]
fn draw_glyph_of_unknown_character_is_a_no_op() {
    let font = test_font();
    let style = TextStyle { font: &font, size: 24 };
    let mut backend = Backend::new();
    let mut frame = Frame::begin();
    let t = Transform::identity();
    backend.draw_glyph(&mut frame, &style, '?', &t);
    assert_eq!(frame.triangles.len(), 0);
    assert_eq!(frame.glyph_textures.len(), 0);
    assert_eq!(backend.next_handle, 0);
}

#[test]
fn draw_glyph_uploads_once_and_draws_quad() {
    let font = test_font();
    let style = TextStyle { font: &font, size: 24 };
    let mut backend = Backend::new();
    let mut frame = Frame::begin();
    let t = Transform::identity();
    backend.draw_glyph(&mut frame, &style, 'A', &t);
    assert_eq!(backend.next_handle, 1);
    assert_eq!(frame.glyph_textures.len(), 1);
    let upload = &frame.glyph_textures[0];
    assert_eq!(upload.handle, 0);
    assert_eq!(upload.bitmap.width, 10);
    assert_eq!(upload.bitmap.height, 14);
    assert_eq!(upload.bitmap.pixels.len(), 10 * 14 * 4);
    assert_eq!(frame.triangles.len(), 2);
    assert_eq!(frame.triangles[0].texture, 0);
    assert_eq!(frame.triangles[1].texture, 0);
    assert!(matches!(frame.triangles[0].blend, Blend::Alpha));
    assert!(matches!(frame.triangles[1].blend, Blend::Alpha));
}

#[test]
fn draw_glyph_inverts_vertical_axis() {
    let font = test_font();
    let style = TextStyle { font: &font, size: 24 };
    let mut backend = Backend::new();
    let mut frame = Frame::begin();
    let t = Transform::identity();
    backend.draw_glyph(&mut frame, &style, 'A', &t);
    let drawn = &frame.triangles[0].transform;
    assert_eq!(drawn.m[0][0], FX_ONE);
    assert_eq!(drawn.m[1][1], -FX_ONE);
    assert_eq!(drawn.m[2][2], FX_ONE);
    assert_eq!(drawn.m[3][3], FX_ONE);
}

#[test]
fn flip_y_negates_only_the_second_row() {
    let mut m = [[0i64; 4]; 4];
    let mut v: i64 = 1;
    for row in m.iter_mut() {
        for cell in row.iter_mut() {
            *cell = v;
            v += 1;
        }
    }
    let t = Transform { m };
    let f = flip_y(&t);
    for j in 0..4 {
        assert_eq!(f.m[0][j], t.m[0][j]);
        assert_eq!(f.m[1][j], -t.m[1][j]);
        assert_eq!(f.m[2][j], t.m[2][j]);
        assert_eq!(f.m[3][j], t.m[3][j]);
    }
}

#[test]
fn line_height_is_six_fifths_of_the_em() {
    let font = test_font();
    let style = TextStyle { font: &font, size: 24 };
    let backend = Backend::new();
    let lh = backend.line_height(&style);
    assert_eq!(lh.num, 144);
    assert_eq!(lh.den, 5);
    assert_eq!(lh.num as f64 / lh.den as f64, 28.8);
}

#[test]
fn backend_kerning_is_zero_at_any_size() {
    let font = test_font();
    let backend = Backend::new();
    for size in [1u16, 24, 96] {
        let style = TextStyle { font: &font, size };
        let k = backend.kerning(&style, 'A', 'M');
        assert_eq!(k.num, 0);
        assert_eq!(k.den, 1);
    }
}

#[test]
fn backend_glyph_metrics_delegate_to_rasterizer() {
    let font = test_font();
    let style = TextStyle { font: &font, size: 24 };
    let backend = Backend::new();
    let m = backend.glyph_metrics(&style, 'A');
    assert_eq!(m, trixel::raster::metrics(&font, 24, 'A'));
    let m1 = backend.glyph_metrics(&style, 'M');
    let m2 = backend.glyph_metrics(&style, 'M');
    assert_eq!(m1, m2);
}

#[test]
fn try_draw_glyph_draws_when_safe() {
    let font = test_font();
    let style = TextStyle { font: &font, size: 24 };
    let mut backend = Backend::new();
    let mut frame = Frame::begin();
    let t = Transform::identity();
    assert!(backend.try_draw_glyph(&mut frame, &style, 'A', &t));
    assert_eq!(frame.triangles.len(), 2);
    assert_eq!(frame.glyph_textures.len(), 1);
    // A glyph without ink is a successful no-op.
    assert!(backend.try_draw_glyph(&mut frame, &style, ' ', &t));
    assert_eq!(frame.triangles.len(), 2);
}

#[test]
fn try_draw_glyph_refuses_when_handles_are_exhausted() {
    let font = test_font();
    let style = TextStyle { font: &font, size: 24 };
    let mut backend = Backend::new();
    backend.next_handle = u64::MAX;
    let mut frame = Frame::begin();
    let t = Transform::identity();
    assert!(!backend.try_draw_glyph(&mut frame, &style, 'A', &t));
    assert_eq!(frame.triangles.len(), 0);
    assert_eq!(frame.glyph_textures.len(), 0);
    assert_eq!(backend.next_handle, u64::MAX);
    // Without ink there is nothing to allocate, so nothing to refuse.
    assert!(backend.try_draw_glyph(&mut frame, &style, ' ', &t));
}

#[test]
fn frame_begins_empty_and_presents_its_commands() {
    let frame = Frame::begin();
    assert_eq!(frame.triangles.len(), 0);
    assert_eq!(frame.glyph_textures.len(), 0);
    let empty = frame.present();
    assert_eq!(empty.triangles.len(), 0);
    assert_eq!(empty.glyph_textures.len(), 0);

    let font = test_font();
    let style = TextStyle { font: &font, size: 24 };
    let mut backend = Backend::new();
    let mut frame = Frame::begin();
    let t = Transform::identity();
    backend.draw_glyph(&mut frame, &style, 'A', &t);
    let presented = frame.present();
    assert_eq!(presented.triangles.len(), 2);
    assert_eq!(presented.glyph_textures.len(), 1);
    assert_eq!(presented.triangles[0].texture, presented.glyph_textures[0].handle);
}
