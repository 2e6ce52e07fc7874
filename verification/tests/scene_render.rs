//! Scene composition and rendering: command order, render determinism,
//! draw-order occlusion, and the end-to-end image pipeline.

use makeacat::encode::canvas_png_or_empty;
use makeacat::geom::Segment;
use makeacat::params::{randomize_cat, CatParams, Pose, TailShape};
use makeacat::rng::RandomSource;
use makeacat::scene::{cat_scene, DrawCmd, Frame, Scene};
use makeacat::style::{Color, LineCap, LineJoin, Style};
use makeacat::{CANVAS_HEIGHT, CANVAS_WIDTH};

fn units(v: i64) -> f32 {
    v as f32 / 1000.0
}

/// A rotation by the given milli-degrees, as a raster transform.
fn rotation(millideg: i64) -> raqote::Transform {
    let r = (millideg as f32 / 1000.0).to_radians();
    raqote::Transform::new(r.cos(), r.sin(), -r.sin(), r.cos(), 0.0, 0.0)
}

/// The global pose as a raster transform: scale, then rotate, then
/// translate.
fn pose_transform(p: &Pose) -> raqote::Transform {
    raqote::Transform::identity()
        .then_scale(p.scale_x as f32 / 1000.0, p.scale_y as f32 / 1000.0)
        .then(&rotation(p.rotation))
        .then_translate(raqote::Vector::new(units(p.tx), units(p.ty)))
}

/// A command's local frame mapped through the global pose.
fn frame_transform(f: &Frame, base: &raqote::Transform) -> raqote::Transform {
    rotation(f.rotation)
        .then_translate(raqote::Vector::new(units(f.tx), units(f.ty)))
        .then(base)
}

fn to_raqote_path(cmd: &DrawCmd) -> raqote::Path {
    let mut pb = raqote::PathBuilder::new();
    for seg in cmd.path.segments() {
        match seg {
            Segment::MoveTo(p) => pb.move_to(units(p.x), units(p.y)),
            Segment::LineTo(p) => pb.line_to(units(p.x), units(p.y)),
            Segment::QuadTo(c, p) => pb.quad_to(units(c.x), units(c.y), units(p.x), units(p.y)),
            Segment::CubicTo(c1, c2, p) => pb.cubic_to(
                units(c1.x),
                units(c1.y),
                units(c2.x),
                units(c2.y),
                units(p.x),
                units(p.y),
            ),
            Segment::Close => pb.close(),
        }
    }
    pb.finish()
}

fn source_of(c: Color) -> raqote::Source<'static> {
    raqote::Source::Solid(raqote::SolidSource { r: c.r, g: c.g, b: c.b, a: c.a })
}

fn draw_options() -> raqote::DrawOptions {
    raqote::DrawOptions {
        blend_mode: raqote::BlendMode::SrcOver,
        alpha: 1.0,
        antialias: raqote::AntialiasMode::Gray,
    }
}

/// Paints a composed scene onto a fresh canvas.
fn render(scene: &Scene) -> raqote::DrawTarget {
    let mut dt = raqote::DrawTarget::new(CANVAS_WIDTH as i32, CANVAS_HEIGHT as i32);
    let base = pose_transform(&scene.pose);
    for cmd in &scene.cmds {
        dt.set_transform(&frame_transform(&cmd.frame, &base));
        let path = to_raqote_path(cmd);
        match cmd.style {
            Style::Stroke { color, stroke } => {
                let style = raqote::StrokeStyle {
                    cap: match stroke.cap {
                        LineCap::Butt => raqote::LineCap::Butt,
                        LineCap::Round => raqote::LineCap::Round,
                        LineCap::Square => raqote::LineCap::Square,
                    },
                    join: match stroke.join {
                        LineJoin::Miter => raqote::LineJoin::Miter,
                        LineJoin::Round => raqote::LineJoin::Round,
                        LineJoin::Bevel => raqote::LineJoin::Bevel,
                    },
                    width: units(stroke.width),
                    miter_limit: units(stroke.miter_limit),
                    dash_array: Vec::new(),
                    dash_offset: 0.0,
                };
                dt.stroke(&path, &source_of(color), &style, &draw_options());
            }
            Style::Fill { color, .. } => {
                dt.fill(&path, &source_of(color), &draw_options());
            }
        }
    }
    dt
}

/// Renders one creature from a seed all the way to PNG bytes.
fn creature_png(seed: u64) -> Vec<u8> {
    let mut rs = RandomSource::from_seed(seed);
    let params = randomize_cat(&mut rs);
    let scene = cat_scene(&params);
    let dt = render(&scene);
    let pixels: Vec<u32> = dt.get_data().to_vec();
    canvas_png_or_empty(CANVAS_WIDTH, CANVAS_HEIGHT, &pixels)
}

fn light(r: u8, g: u8, b: u8) -> Color {
    Color { r, g, b, a: 255 }
}

/// A fixed, unrotated parameter set for pixel-level checks.
fn fixed_params() -> CatParams {
    CatParams {
        pose: Pose { scale_x: 1080, scale_y: 1080, rotation: 0, tx: 195_000, ty: 124_000 },
        tail: TailShape::Quad { cx: 40_000, cy: 5_000, tox: 50_000, toy: 40_000 },
        neck_half: 12_000,
        body_rx: 65_000,
        body_ry: 29_000,
        leg_rx: 7_000,
        leg_ry: 25_000,
        ear_jx: 0,
        ear_jy: 0,
        eye_r: 3_000,
        nose_px: 5_000,
        nose_cx: 10_000,
        nose_by: 10_000,
        neck_color: light(120, 120, 200),
        leg_color_outer_left: light(110, 210, 110),
        leg_color_inner_left: light(130, 190, 140),
        leg_color_inner_right: light(150, 170, 170),
        leg_color_outer_right: light(170, 150, 200),
        body_color: light(120, 220, 180),
        ear_color: light(210, 160, 120),
        head_color: light(200, 150, 100),
    }
}

fn pixel(dt: &raqote::DrawTarget, x: usize, y: usize) -> u32 {
    dt.get_data()[y * CANVAS_WIDTH as usize + x]
}

fn packed(c: Color) -> u32 {
    ((c.a as u32) << 24) | ((c.r as u32) << 16) | ((c.g as u32) << 8) | (c.b as u32)
}

#[test]
fn scene_lists_nineteen_commands_in_draw_order() {
    let mut rs = RandomSource::from_seed(7);
    let params = randomize_cat(&mut rs);
    let scene = cat_scene(&params);
    assert_eq!(scene.pose, params.pose);
    assert_eq!(scene.cmds.len(), 19);

    // The tail comes first: stroked wider than the default, under the pose
    // itself, springing from (60, 0).
    let tail = &scene.cmds[0];
    assert_eq!(tail.frame, Frame { rotation: 0, tx: 0, ty: 0 });
    match tail.style {
        Style::Stroke { color, stroke } => {
            assert_eq!(color, Color { r: 0, g: 0, b: 0, a: 255 });
            assert_eq!(stroke.width, 7_000);
            assert_eq!(stroke.miter_limit, 2_000);
            assert_eq!(stroke.cap, LineCap::Round);
            assert_eq!(stroke.join, LineJoin::Miter);
        }
        _ => panic!("the tail is stroked"),
    }
    assert_eq!(
        tail.path.segments()[0],
        Segment::MoveTo(makeacat::geom::Point { x: 60_000, y: 0 })
    );

    // Neck, then four legs, each stroked then filled.
    assert_eq!(scene.cmds[1].frame, Frame { rotation: -30_000, tx: -45_000, ty: -19_000 });
    assert_eq!(scene.cmds[2].frame, scene.cmds[1].frame);
    let leg_frames = [
        Frame { rotation: 20_000, tx: -45_000, ty: 21_000 },
        Frame { rotation: 5_000, tx: -25_000, ty: 26_000 },
        Frame { rotation: -5_000, tx: 25_000, ty: 26_000 },
        Frame { rotation: -20_000, tx: 45_000, ty: 21_000 },
    ];
    for k in 0..4 {
        assert_eq!(scene.cmds[3 + 2 * k].frame, leg_frames[k]);
        assert_eq!(scene.cmds[4 + 2 * k].frame, leg_frames[k]);
        assert!(matches!(scene.cmds[3 + 2 * k].style, Style::Stroke { .. }));
        assert!(matches!(scene.cmds[4 + 2 * k].style, Style::Fill { .. }));
    }

    // The body under the pose itself, stroked then filled.
    assert_eq!(scene.cmds[11].frame, Frame { rotation: 0, tx: 0, ty: 0 });
    assert!(matches!(scene.cmds[11].style, Style::Stroke { .. }));
    match scene.cmds[12].style {
        Style::Fill { color, .. } => assert_eq!(color, params.body_color),
        _ => panic!("the body is filled after its stroke"),
    }

    // The head group comes last, entirely after the body, under the head
    // frame; eyes and nose are filled solid black.
    let head_frame = Frame { rotation: 0, tx: -59_000, ty: -44_000 };
    for k in 13..19 {
        assert_eq!(scene.cmds[k].frame, head_frame);
    }
    match scene.cmds[17].style {
        Style::Fill { color, .. } => assert_eq!(color, Color { r: 0, g: 0, b: 0, a: 255 }),
        _ => panic!("the eyes are filled"),
    }
    match scene.cmds[18].style {
        Style::Fill { color, .. } => assert_eq!(color, Color { r: 0, g: 0, b: 0, a: 255 }),
        _ => panic!("the nose is filled"),
    }
}

#[test]
fn same_commands_paint_identical_buffers() {
    // The same fill and stroke sequence issued twice onto fresh canvases of
    // the same size leaves bit-identical pixel buffers.
    let mut rs = RandomSource::from_seed(99);
    let params = randomize_cat(&mut rs);
    let scene = cat_scene(&params);
    let a = render(&scene);
    let b = render(&scene);
    assert_eq!(a.get_data(), b.get_data());
}

#[test]
fn equal_seeds_render_identical_images() {
    assert_eq!(creature_png(12345), creature_png(12345));
}

#[test]
fn head_pixels_cover_body_pixels() {
    // A pixel inside both the head ellipse and the body's bounding area
    // must show the head's fill color, since the head group is painted
    // after the body.
    let params = fixed_params();
    let scene = cat_scene(&params);
    let dt = render(&scene);
    assert_eq!(pixel(&dt, 131, 97), packed(params.head_color));
    // A pixel inside the body but clear of the head group keeps the body's
    // fill color, painted over the legs below it.
    assert_eq!(pixel(&dt, 240, 124), packed(params.body_color));
}

#[test]
fn hundred_seeds_yield_hundred_distinct_decodable_cats() {
    let mut frames: Vec<Vec<u8>> = Vec::new();
    for seed in 0..100u64 {
        let bytes = creature_png(seed);
        assert!(bytes.len() > 0);
        let decoder = png::Decoder::new(std::io::Cursor::new(&bytes));
        let mut reader = decoder.read_info().expect("the output decodes as a PNG");
        let mut buf = vec![0u8; reader.output_buffer_size()];
        let info = reader.next_frame(&mut buf).expect("the image data decodes");
        assert_eq!(info.width, CANVAS_WIDTH);
        assert_eq!(info.height, CANVAS_HEIGHT);
        buf.truncate(info.buffer_size());
        frames.push(buf);
    }
    for i in 0..frames.len() {
        for j in (i + 1)..frames.len() {
            assert_ne!(frames[i], frames[j], "two seeds painted identical images");
        }
    }
}

#[test]
fn unavailable_image_has_the_same_fixed_dimensions() {
    // The degraded-mode image is produced on a canvas of the same fixed
    // size, whatever content is painted on it.
    let dt = raqote::DrawTarget::new(CANVAS_WIDTH as i32, CANVAS_HEIGHT as i32);
    let pixels: Vec<u32> = dt.get_data().to_vec();
    let bytes = canvas_png_or_empty(CANVAS_WIDTH, CANVAS_HEIGHT, &pixels);
    let decoder = png::Decoder::new(std::io::Cursor::new(&bytes));
    let mut reader = decoder.read_info().expect("the output decodes as a PNG");
    let mut buf = vec![0u8; reader.output_buffer_size()];
    let info = reader.next_frame(&mut buf).expect("the image data decodes");
    assert_eq!(info.width, CANVAS_WIDTH);
    assert_eq!(info.height, CANVAS_HEIGHT);
}
