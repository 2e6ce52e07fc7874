//! Colors and draw styles.

use vstd::prelude::*;

use crate::rng::RandomSource;

verus! {

/// Lowest value drawn for a random fill channel. The floor keeps every
/// randomly filled shape pastel and light, never near black.
pub const COLOR_CHANNEL_MIN: u8 = 100;

/// Highest value drawn for a random fill channel.
pub const COLOR_CHANNEL_MAX: u8 = 255;

/// An RGBA solid color with 8-bit channels. Drawing colors always carry an
/// opaque alpha.
#[derive(Clone, Copy, PartialEq, Eq, Structural, Debug)]
pub struct Color {
    pub r: u8,
    pub g: u8,
    pub b: u8,
    pub a: u8,
}

/// The opaque black used for strokes, eyes and the nose.
pub open spec fn black_spec() -> Color {
    Color { r: 0, g: 0, b: 0, a: 255 }
}

/// A color drawn by `random_color`: opaque, with every channel at or above
/// the pastel floor.
pub open spec fn color_light(c: Color) -> bool {
    &&& COLOR_CHANNEL_MIN <= c.r <= COLOR_CHANNEL_MAX
    &&& COLOR_CHANNEL_MIN <= c.g <= COLOR_CHANNEL_MAX
    &&& COLOR_CHANNEL_MIN <= c.b <= COLOR_CHANNEL_MAX
    &&& c.a == 255
}

/// The opaque black drawing color.
pub fn black() -> (c: Color)
    ensures
        c == black_spec(),
{
    Color { r: 0, g: 0, b: 0, a: 255 }
}

/// Draws a random light color: each channel uniform between the pastel
/// floor and full intensity, alpha opaque.
pub fn random_color(rs: &mut RandomSource) -> (c: Color)
    ensures
        color_light(c),
{
    let r = rs.range_i64(COLOR_CHANNEL_MIN as i64, COLOR_CHANNEL_MAX as i64 + 1);
    let g = rs.range_i64(COLOR_CHANNEL_MIN as i64, COLOR_CHANNEL_MAX as i64 + 1);
    let b = rs.range_i64(COLOR_CHANNEL_MIN as i64, COLOR_CHANNEL_MAX as i64 + 1);
    Color { r: r as u8, g: g as u8, b: b as u8, a: 255 }
}

/// Line-cap shape of a stroked path end.
#[derive(Clone, Copy, PartialEq, Eq, Structural, Debug)]
pub enum LineCap {
    Butt,
    Round,
    Square,
}

/// Join shape where two stroked segments meet.
#[derive(Clone, Copy, PartialEq, Eq, Structural, Debug)]
pub enum LineJoin {
    Miter,
    Round,
    Bevel,
}

/// Fill rule deciding which regions a fill covers.
#[derive(Clone, Copy, PartialEq, Eq, Structural, Debug)]
pub enum FillRule {
    NonZero,
    EvenOdd,
}

/// Stroke geometry: width and miter limit in milli-units.
#[derive(Clone, Copy, PartialEq, Eq, Structural, Debug)]
pub struct StrokeStyle {
    pub width: i64,
    pub cap: LineCap,
    pub join: LineJoin,
    pub miter_limit: i64,
}

/// Default stroke width across the scene, in milli-units (five canvas
/// units).
pub const STROKE_WIDTH: i64 = 5_000;

/// Stroke width used for the tail, in milli-units (seven canvas units).
pub const TAIL_STROKE_WIDTH: i64 = 7_000;

/// Default miter limit, in milli-units (two canvas units).
pub const MITER_LIMIT: i64 = 2_000;

/// The default stroke style: round caps, miter joins, miter limit two,
/// width five canvas units.
pub open spec fn default_stroke() -> StrokeStyle {
    StrokeStyle {
        width: STROKE_WIDTH,
        cap: LineCap::Round,
        join: LineJoin::Miter,
        miter_limit: MITER_LIMIT,
    }
}

/// The wider stroke style used for the tail only.
pub open spec fn tail_stroke() -> StrokeStyle {
    StrokeStyle {
        width: TAIL_STROKE_WIDTH,
        cap: LineCap::Round,
        join: LineJoin::Miter,
        miter_limit: MITER_LIMIT,
    }
}

/// The default stroke style for shapes.
pub fn stroke() -> (s: StrokeStyle)
    ensures
        s == default_stroke(),
{
    StrokeStyle {
        width: STROKE_WIDTH,
        cap: LineCap::Round,
        join: LineJoin::Miter,
        miter_limit: MITER_LIMIT,
    }
}

/// How one path is painted: stroked with a stroke geometry, or filled
/// under a fill rule. Compositing is always source-over with anti-aliased
/// coverage.
#[derive(Clone, Copy, PartialEq, Eq, Structural, Debug)]
pub enum Style {
    Stroke { color: Color, stroke: StrokeStyle },
    Fill { color: Color, rule: FillRule },
}

/// A black stroke in the default style.
pub open spec fn black_stroke() -> Style {
    Style::Stroke { color: black_spec(), stroke: default_stroke() }
}

/// A non-zero-rule fill in the given color.
pub open spec fn fill_of(c: Color) -> Style {
    Style::Fill { color: c, rule: FillRule::NonZero }
}

} // verus!
