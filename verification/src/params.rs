//! Parametric randomization.
//!
//! Turns a stream of uniform draws into the concrete scalar parameters of
//! one creature: pose, tail branch, part sizes, jitters and fill colors.
//! All ranges are fixed design constants, exposed here by name, and every
//! length is in milli-units. The functions are stateless but for the draws
//! they consume from the injected source.

use vstd::prelude::*;

use vstd::arithmetic::div_mod::{lemma_fundamental_div_mod, lemma_mod_bound};

use crate::rng::RandomSource;
use crate::style::{color_light, random_color, Color};

verus! {

/// Base of the pose scale factors, in thousandths.
pub const POSE_SCALE_BASE: i64 = 1_100;

/// Half-width of the jitter band around the pose scale base, in
/// thousandths.
pub const POSE_SCALE_JITTER: i64 = 20;

/// x coordinate of the pose anchor, in milli-units.
pub const POSE_ANCHOR_X: i64 = 195_000;

/// y coordinate of the pose anchor, in milli-units.
pub const POSE_ANCHOR_Y: i64 = 124_000;

/// Half-width of the horizontal jitter around the pose anchor.
pub const POSE_JITTER_X: i64 = 70_000;

/// Half-width of the vertical jitter around the pose anchor.
pub const POSE_JITTER_Y: i64 = 45_000;

/// Half a turn in milli-degrees.
pub const HALF_TURN: i64 = 180_000;

/// The global pose: independent axis scales in thousandths, a rotation in
/// milli-degrees, and a translation in milli-units. A part drawn in local
/// coordinates is scaled, then rotated, then translated by the pose.
#[derive(Clone, Copy, PartialEq, Eq, Structural, Debug)]
pub struct Pose {
    pub scale_x: i64,
    pub scale_y: i64,
    pub rotation: i64,
    pub tx: i64,
    pub ty: i64,
}

/// A pose the randomizer can produce: scales inside the jitter band,
/// rotation inside a half turn either way, translation inside the jitter
/// box around the anchor.
pub open spec fn pose_wf(p: Pose) -> bool {
    &&& POSE_SCALE_BASE - POSE_SCALE_JITTER <= p.scale_x < POSE_SCALE_BASE + POSE_SCALE_JITTER
    &&& POSE_SCALE_BASE - POSE_SCALE_JITTER <= p.scale_y < POSE_SCALE_BASE + POSE_SCALE_JITTER
    &&& -HALF_TURN <= p.rotation < HALF_TURN
    &&& POSE_ANCHOR_X - POSE_JITTER_X <= p.tx < POSE_ANCHOR_X + POSE_JITTER_X
    &&& POSE_ANCHOR_Y - POSE_JITTER_Y <= p.ty < POSE_ANCHOR_Y + POSE_JITTER_Y
}

/// Draws the global pose. The rotation is the sum of two independent
/// uniform half-turn draws less a half turn: a symmetric triangular
/// distribution centered on zero, not a uniform one.
pub fn randomize_pose(rs: &mut RandomSource) -> (p: Pose)
    ensures
        pose_wf(p),
{
    let rot_a = rs.range_i64(0, HALF_TURN);
    let rot_b = rs.range_i64(0, HALF_TURN);
    let scale_x = POSE_SCALE_BASE + rs.range_i64(-POSE_SCALE_JITTER, POSE_SCALE_JITTER);
    let scale_y = POSE_SCALE_BASE + rs.range_i64(-POSE_SCALE_JITTER, POSE_SCALE_JITTER);
    let tx = POSE_ANCHOR_X + rs.range_i64(-POSE_JITTER_X, POSE_JITTER_X);
    let ty = POSE_ANCHOR_Y + rs.range_i64(-POSE_JITTER_Y, POSE_JITTER_Y);
    Pose { scale_x, scale_y, rotation: rot_a + rot_b - HALF_TURN, tx, ty }
}

/// `a * b / 1000`, rounding toward minus infinity: the product of two
/// fixed-point milli-unit factors.
pub open spec fn mul_milli_spec(a: int, b: int) -> int {
    (a * b) / 1000
}

/// Multiplies two fixed-point milli-unit factors.
pub fn mul_milli(a: i64, b: i64) -> (r: i64)
    requires
        -1_000_000 <= a <= 1_000_000,
        -1_000_000 <= b <= 1_000_000,
    ensures
        r == mul_milli_spec(a as int, b as int),
{
    proof {
        assert(-1_000_000_000_000 <= a * b <= 1_000_000_000_000) by (nonlinear_arith)
            requires
                -1_000_000 <= a <= 1_000_000,
                -1_000_000 <= b <= 1_000_000,
        ;
    }
    let prod: i64 = a * b;
    prod.checked_div_euclid(1000).unwrap()
}

/// A quotient by a thousand falls in `[lo, hi)` when the dividend falls in
/// the correspondingly scaled window.
proof fn lemma_div1000_range(x: int, lo: int, hi: int)
    requires
        1000 * lo <= x,
        x < 1000 * hi,
    ensures
        lo <= x / 1000 < hi,
{
    lemma_fundamental_div_mod(x, 1000);
    lemma_mod_bound(x, 1000);
}

/// Window of the product of two draws from nonnegative ranges.
proof fn lemma_milli_box_pos(a: int, b: int, al: int, ah: int, bl: int, bh: int, lo: int, hi: int)
    requires
        0 <= al <= a < ah,
        0 <= bl <= b < bh,
        1000 * lo <= al * bl,
        (ah - 1) * (bh - 1) < 1000 * hi,
    ensures
        lo <= mul_milli_spec(a, b) < hi,
{
    assert(al * bl <= a * b <= (ah - 1) * (bh - 1)) by (nonlinear_arith)
        requires
            0 <= al <= a < ah,
            0 <= bl <= b < bh,
    ;
    lemma_div1000_range(a * b, lo, hi);
}

/// Window of the product of a draw from a nonnegative range with a draw
/// from a nonpositive range.
proof fn lemma_milli_box_neg(a: int, b: int, al: int, ah: int, bl: int, bh: int, lo: int, hi: int)
    requires
        0 <= al <= a < ah,
        bl <= b < bh <= 0,
        1000 * lo <= (ah - 1) * bl,
        al * (bh - 1) < 1000 * hi,
    ensures
        lo <= mul_milli_spec(a, b) < hi,
{
    assert((ah - 1) * bl <= a * b <= al * (bh - 1)) by (nonlinear_arith)
        requires
            0 <= al <= a < ah,
            bl <= b < bh <= 0,
    ;
    lemma_div1000_range(a * b, lo, hi);
}

/// The tail springs from `(60, 0)` in body-local coordinates; these are
/// the endpoint and control offsets from that point, in milli-units.
#[derive(Clone, Copy, PartialEq, Eq, Structural, Debug)]
pub enum TailShape {
    Line { dx: i64, dy: i64 },
    Cubic { c1x: i64, c1y: i64, c2x: i64, c2y: i64, tox: i64, toy: i64 },
    Quad { cx: i64, cy: i64, tox: i64, toy: i64 },
}

/// One-in-twenty chance of a straight tail.
pub const TAIL_LINE_NUM: u32 = 1;

/// Denominator of the straight-tail chance.
pub const TAIL_LINE_DEN: u32 = 20;

/// One-in-ten chance, within straight tails, of the extreme variant.
pub const TAIL_EXTREME_NUM: u32 = 1;

/// Denominator of the extreme straight-tail chance.
pub const TAIL_EXTREME_DEN: u32 = 10;

/// Factor the extreme straight tail is stretched by.
pub const TAIL_EXTREME_SCALE: i64 = 5;

/// Lower bound of the straight tail's reach, in milli-units.
pub const TAIL_LINE_DX_MIN: i64 = 40_000;

/// Upper bound (exclusive) of the straight tail's reach.
pub const TAIL_LINE_DX_MAX: i64 = 70_000;

/// Half-width of the straight tail's vertical tilt band.
pub const TAIL_LINE_DY: i64 = 30_000;

/// Lower bound of the cubic tail's scale, in thousandths.
pub const TAIL_CUBIC_SCALE_MIN: i64 = 2_500;

/// Upper bound (exclusive) of the cubic tail's scale.
pub const TAIL_CUBIC_SCALE_MAX: i64 = 3_500;

/// Unscaled band of the cubic tail's first control x offset.
pub const TAIL_CUBIC_C1X_MIN: i64 = 12_000;

/// Upper bound (exclusive) of the cubic tail's first control x offset.
pub const TAIL_CUBIC_C1X_MAX: i64 = 17_000;

/// Upper bound (exclusive) of the cubic tail's first control rise.
pub const TAIL_CUBIC_C1Y_MAX: i64 = 5_000;

/// Lower bound of the cubic tail's second control x offset.
pub const TAIL_CUBIC_C2X_MIN: i64 = -5_000;

/// Unscaled band of the cubic tail's second control rise.
pub const TAIL_CUBIC_C2Y_MIN: i64 = 10_000;

/// Upper bound (exclusive) of the cubic tail's second control rise.
pub const TAIL_CUBIC_C2Y_MAX: i64 = 15_000;

/// Unscaled band of the cubic tail's endpoint reach.
pub const TAIL_CUBIC_TOX_MIN: i64 = 15_000;

/// Upper bound (exclusive) of the cubic tail's endpoint reach.
pub const TAIL_CUBIC_TOX_MAX: i64 = 25_000;

/// Unscaled band of the cubic tail's endpoint rise.
pub const TAIL_CUBIC_TOY_MIN: i64 = 5_000;

/// Upper bound (exclusive) of the cubic tail's endpoint rise.
pub const TAIL_CUBIC_TOY_MAX: i64 = 15_000;

/// Lower bound of the quadratic tail's scale, in thousandths.
pub const TAIL_QUAD_SCALE_MIN: i64 = 3_000;

/// Upper bound (exclusive) of the quadratic tail's scale.
pub const TAIL_QUAD_SCALE_MAX: i64 = 4_000;

/// Unscaled band of the quadratic tail's control x offset.
pub const TAIL_QUAD_CX_MIN: i64 = 12_000;

/// Upper bound (exclusive) of the quadratic tail's control x offset.
pub const TAIL_QUAD_CX_MAX: i64 = 17_000;

/// Upper bound (exclusive) of the quadratic tail's control rise.
pub const TAIL_QUAD_CY_MAX: i64 = 5_000;

/// Unscaled band of the quadratic tail's endpoint reach.
pub const TAIL_QUAD_TOX_MIN: i64 = 5_000;

/// Upper bound (exclusive) of the quadratic tail's endpoint reach.
pub const TAIL_QUAD_TOX_MAX: i64 = 20_000;

/// Unscaled band of the quadratic tail's endpoint rise.
pub const TAIL_QUAD_TOY_MIN: i64 = 12_000;

/// Upper bound (exclusive) of the quadratic tail's endpoint rise.
pub const TAIL_QUAD_TOY_MAX: i64 = 17_000;

/// A tail shape the randomizer can produce. A straight tail reaches right
/// and may tilt either way, five times as far in the extreme variant; the
/// curved tails bend through jittered control points whose vertical parts
/// all share one randomly drawn sign. The curved bounds are the scaled
/// products of the range constants' endpoints.
pub open spec fn tail_wf(t: TailShape) -> bool {
    match t {
        TailShape::Line { dx, dy } => {
            ||| (TAIL_LINE_DX_MIN <= dx < TAIL_LINE_DX_MAX && -TAIL_LINE_DY <= dy < TAIL_LINE_DY)
            ||| (TAIL_EXTREME_SCALE * TAIL_LINE_DX_MIN <= dx < TAIL_EXTREME_SCALE * TAIL_LINE_DX_MAX
                && -(TAIL_EXTREME_SCALE * TAIL_LINE_DY) <= dy < TAIL_EXTREME_SCALE * TAIL_LINE_DY)
        },
        TailShape::Cubic { c1x, c1y, c2x, c2y, tox, toy } => {
            &&& 30_000 <= c1x < 59_500
            &&& -17_500 < c1y < 17_500
            &&& -17_500 <= c2x < 0
            &&& (25_000 <= c2y < 52_500 || -52_500 < c2y <= -25_000)
            &&& 37_500 <= tox < 87_500
            &&& (12_500 <= toy < 52_500 || -52_500 < toy <= -12_500)
        },
        TailShape::Quad { cx, cy, tox, toy } => {
            &&& 36_000 <= cx < 68_000
            &&& -20_000 < cy < 20_000
            &&& 15_000 <= tox < 80_000
            &&& (36_000 <= toy < 68_000 || -68_000 < toy <= -36_000)
        },
    }
}

/// Gives `v` the drawn vertical sign: `v` itself for one outcome of the
/// flip, `-v` for the other.
fn apply_sign(upward: bool, v: i64) -> (r: i64)
    requires
        0 <= v,
    ensures
        r == if upward {
            v as int
        } else {
            -(v as int)
        },
{
    if upward {
        v
    } else {
        -v
    }
}

/// Draws the tail branch: a one-in-twenty chance of a straight segment
/// (itself with a one-in-ten chance of the stretched extreme variant),
/// else an even split between a cubic and a quadratic curve.
pub fn randomize_tail(rs: &mut RandomSource) -> (t: TailShape)
    ensures
        tail_wf(t),
{
    let upward = rs.flip();
    if rs.ratio(TAIL_LINE_NUM, TAIL_LINE_DEN) {
        let extreme = rs.ratio(TAIL_EXTREME_NUM, TAIL_EXTREME_DEN);
        let rx = rs.range_i64(TAIL_LINE_DX_MIN, TAIL_LINE_DX_MAX);
        let ry = rs.range_i64(-TAIL_LINE_DY, TAIL_LINE_DY);
        if extreme {
            TailShape::Line { dx: TAIL_EXTREME_SCALE * rx, dy: TAIL_EXTREME_SCALE * ry }
        } else {
            TailShape::Line { dx: rx, dy: ry }
        }
    } else if rs.flip() {
        let s = rs.range_i64(TAIL_CUBIC_SCALE_MIN, TAIL_CUBIC_SCALE_MAX);
        let r1 = rs.range_i64(TAIL_CUBIC_C1X_MIN, TAIL_CUBIC_C1X_MAX);
        let c1x = mul_milli(s, r1);
        let r2 = rs.range_i64(0, TAIL_CUBIC_C1Y_MAX);
        let c1v = mul_milli(s, r2);
        let r3 = rs.range_i64(TAIL_CUBIC_C2X_MIN, 0);
        let c2x = mul_milli(s, r3);
        let r4 = rs.range_i64(TAIL_CUBIC_C2Y_MIN, TAIL_CUBIC_C2Y_MAX);
        let c2v = mul_milli(s, r4);
        let r5 = rs.range_i64(TAIL_CUBIC_TOX_MIN, TAIL_CUBIC_TOX_MAX);
        let tox = mul_milli(s, r5);
        let r6 = rs.range_i64(TAIL_CUBIC_TOY_MIN, TAIL_CUBIC_TOY_MAX);
        let tov = mul_milli(s, r6);
        proof {
            lemma_milli_box_pos(s as int, r1 as int, 2_500, 3_500, 12_000, 17_000, 30_000, 59_500);
            lemma_milli_box_pos(s as int, r2 as int, 2_500, 3_500, 0, 5_000, 0, 17_500);
            lemma_milli_box_neg(s as int, r3 as int, 2_500, 3_500, -5_000, 0, -17_500, 0);
            lemma_milli_box_pos(s as int, r4 as int, 2_500, 3_500, 10_000, 15_000, 25_000, 52_500);
            lemma_milli_box_pos(s as int, r5 as int, 2_500, 3_500, 15_000, 25_000, 37_500, 87_500);
            lemma_milli_box_pos(s as int, r6 as int, 2_500, 3_500, 5_000, 15_000, 12_500, 52_500);
        }
        TailShape::Cubic {
            c1x,
            c1y: apply_sign(upward, c1v),
            c2x,
            c2y: apply_sign(upward, c2v),
            tox,
            toy: apply_sign(upward, tov),
        }
    } else {
        let s = rs.range_i64(TAIL_QUAD_SCALE_MIN, TAIL_QUAD_SCALE_MAX);
        let r1 = rs.range_i64(TAIL_QUAD_CX_MIN, TAIL_QUAD_CX_MAX);
        let cx = mul_milli(s, r1);
        let r2 = rs.range_i64(0, TAIL_QUAD_CY_MAX);
        let cv = mul_milli(s, r2);
        let r3 = rs.range_i64(TAIL_QUAD_TOX_MIN, TAIL_QUAD_TOX_MAX);
        let tox = mul_milli(s, r3);
        let r4 = rs.range_i64(TAIL_QUAD_TOY_MIN, TAIL_QUAD_TOY_MAX);
        let tov = mul_milli(s, r4);
        proof {
            lemma_milli_box_pos(s as int, r1 as int, 3_000, 4_000, 12_000, 17_000, 36_000, 68_000);
            lemma_milli_box_pos(s as int, r2 as int, 3_000, 4_000, 0, 5_000, 0, 20_000);
            lemma_milli_box_pos(s as int, r3 as int, 3_000, 4_000, 5_000, 20_000, 15_000, 80_000);
            lemma_milli_box_pos(s as int, r4 as int, 3_000, 4_000, 12_000, 17_000, 36_000, 68_000);
        }
        TailShape::Quad { cx, cy: apply_sign(upward, cv), tox, toy: apply_sign(upward, tov) }
    }
}

/// Lower bound of the neck half-extent, in milli-units.
pub const NECK_HALF_MIN: i64 = 11_000;

/// Upper bound (exclusive) of the neck half-extent.
pub const NECK_HALF_MAX: i64 = 16_000;

/// Lower bound of the body x radius.
pub const BODY_RX_MIN: i64 = 55_000;

/// Upper bound (exclusive) of the body x radius.
pub const BODY_RX_MAX: i64 = 66_000;

/// Lower bound of the body y radius.
pub const BODY_RY_MIN: i64 = 25_000;

/// Upper bound (exclusive) of the body y radius.
pub const BODY_RY_MAX: i64 = 30_000;

/// Lower bound of the leg x radius.
pub const LEG_RX_MIN: i64 = 6_000;

/// Upper bound (exclusive) of the leg x radius.
pub const LEG_RX_MAX: i64 = 8_000;

/// Lower bound of the leg y radius.
pub const LEG_RY_MIN: i64 = 23_000;

/// Upper bound (exclusive) of the leg y radius.
pub const LEG_RY_MAX: i64 = 28_000;

/// Half-width of the jitter band on the ear apex, in milli-units.
pub const EAR_JITTER: i64 = 2_000;

/// Lower bound of the shared eye radius.
pub const EYE_R_MIN: i64 = 2_700;

/// Upper bound (exclusive) of the shared eye radius.
pub const EYE_R_MAX: i64 = 3_300;

/// Base of the nose mouth-corner x distance.
pub const NOSE_P_BASE: i64 = 4_000;

/// Base of the nose upper-control x distance.
pub const NOSE_C_BASE: i64 = 9_000;

/// Base of the nose lower-control y distance.
pub const NOSE_B_BASE: i64 = 9_000;

/// Lower bound of the jitter added to each nose base distance.
pub const NOSE_JITTER_MIN: i64 = 500;

/// Upper bound (exclusive) of the jitter added to each nose base distance.
pub const NOSE_JITTER_MAX: i64 = 1_500;

/// Every randomized parameter of one creature, in milli-units. The four
/// legs share one drawn radius pair and differ only in fixed placement;
/// each leg still receives its own fill color.
#[derive(Clone, Copy, PartialEq, Eq, Structural, Debug)]
pub struct CatParams {
    pub pose: Pose,
    pub tail: TailShape,
    pub neck_half: i64,
    pub body_rx: i64,
    pub body_ry: i64,
    pub leg_rx: i64,
    pub leg_ry: i64,
    pub ear_jx: i64,
    pub ear_jy: i64,
    pub eye_r: i64,
    pub nose_px: i64,
    pub nose_cx: i64,
    pub nose_by: i64,
    pub neck_color: Color,
    pub leg_color_outer_left: Color,
    pub leg_color_inner_left: Color,
    pub leg_color_inner_right: Color,
    pub leg_color_outer_right: Color,
    pub body_color: Color,
    pub ear_color: Color,
    pub head_color: Color,
}

/// A parameter set the randomizer can produce: every scalar inside its
/// design band, every fill color light and opaque.
pub open spec fn params_wf(p: CatParams) -> bool {
    &&& pose_wf(p.pose)
    &&& tail_wf(p.tail)
    &&& NECK_HALF_MIN <= p.neck_half < NECK_HALF_MAX
    &&& BODY_RX_MIN <= p.body_rx < BODY_RX_MAX
    &&& BODY_RY_MIN <= p.body_ry < BODY_RY_MAX
    &&& LEG_RX_MIN <= p.leg_rx < LEG_RX_MAX
    &&& LEG_RY_MIN <= p.leg_ry < LEG_RY_MAX
    &&& -EAR_JITTER <= p.ear_jx < EAR_JITTER
    &&& -EAR_JITTER <= p.ear_jy < EAR_JITTER
    &&& EYE_R_MIN <= p.eye_r < EYE_R_MAX
    &&& NOSE_P_BASE + NOSE_JITTER_MIN <= p.nose_px < NOSE_P_BASE + NOSE_JITTER_MAX
    &&& NOSE_C_BASE + NOSE_JITTER_MIN <= p.nose_cx < NOSE_C_BASE + NOSE_JITTER_MAX
    &&& NOSE_B_BASE + NOSE_JITTER_MIN <= p.nose_by < NOSE_B_BASE + NOSE_JITTER_MAX
    &&& color_light(p.neck_color)
    &&& color_light(p.leg_color_outer_left)
    &&& color_light(p.leg_color_inner_left)
    &&& color_light(p.leg_color_inner_right)
    &&& color_light(p.leg_color_outer_right)
    &&& color_light(p.body_color)
    &&& color_light(p.ear_color)
    &&& color_light(p.head_color)
}

/// Draws every parameter of one creature, in scene order: pose, tail,
/// neck, body and leg sizes, the fill colors in paint order, then the
/// head's jitters and its colors.
pub fn randomize_cat(rs: &mut RandomSource) -> (p: CatParams)
    ensures
        params_wf(p),
{
    let pose = randomize_pose(rs);
    let tail = randomize_tail(rs);
    let neck_half = rs.range_i64(NECK_HALF_MIN, NECK_HALF_MAX);
    let body_rx = rs.range_i64(BODY_RX_MIN, BODY_RX_MAX);
    let body_ry = rs.range_i64(BODY_RY_MIN, BODY_RY_MAX);
    let leg_rx = rs.range_i64(LEG_RX_MIN, LEG_RX_MAX);
    let leg_ry = rs.range_i64(LEG_RY_MIN, LEG_RY_MAX);
    let neck_color = random_color(rs);
    let leg_color_outer_left = random_color(rs);
    let leg_color_inner_left = random_color(rs);
    let leg_color_inner_right = random_color(rs);
    let leg_color_outer_right = random_color(rs);
    let body_color = random_color(rs);
    let ear_jx = rs.range_i64(-EAR_JITTER, EAR_JITTER);
    let ear_jy = rs.range_i64(-EAR_JITTER, EAR_JITTER);
    let eye_r = rs.range_i64(EYE_R_MIN, EYE_R_MAX);
    let nose_px = NOSE_P_BASE + rs.range_i64(NOSE_JITTER_MIN, NOSE_JITTER_MAX);
    let nose_cx = NOSE_C_BASE + rs.range_i64(NOSE_JITTER_MIN, NOSE_JITTER_MAX);
    let nose_by = NOSE_B_BASE + rs.range_i64(NOSE_JITTER_MIN, NOSE_JITTER_MAX);
    let ear_color = random_color(rs);
    let head_color = random_color(rs);
    CatParams {
        pose,
        tail,
        neck_half,
        body_rx,
        body_ry,
        leg_rx,
        leg_ry,
        ear_jx,
        ear_jy,
        eye_r,
        nose_px,
        nose_cx,
        nose_by,
        neck_color,
        leg_color_outer_left,
        leg_color_inner_left,
        leg_color_inner_right,
        leg_color_outer_right,
        body_color,
        ear_color,
        head_color,
    }
}

/// Leftmost x position of the placeholder text in its wider layout, in
/// milli-units.
pub const BANNER_X_MIN: i64 = 8_000;

/// Upper bound (exclusive) of the text x position for the default wording.
pub const BANNER_X_MAX_DEFAULT: i64 = 194_000;

/// Upper bound (exclusive) of the text x position for the Catalan wording.
pub const BANNER_X_MAX_CATALAN: i64 = 260_000;

/// Lowest y position of the placeholder text.
pub const BANNER_Y_MIN: i64 = 25_000;

/// Upper bound (exclusive) of the text y position.
pub const BANNER_Y_MAX: i64 = 248_000;

/// Point size of the placeholder text, in milli-units.
pub const BANNER_FONT_SIZE: i64 = 24_000;

/// Placement of the placeholder "come back later" text: a wording chosen
/// by a fair flip and a position jittered over the canvas.
#[derive(Clone, Copy, PartialEq, Eq, Structural, Debug)]
pub struct UnavailableBanner {
    pub catalan: bool,
    pub x: i64,
    pub y: i64,
}

/// A banner the randomizer can produce: position inside the layout box of
/// its wording.
pub open spec fn banner_wf(b: UnavailableBanner) -> bool {
    &&& BANNER_X_MIN <= b.x < if b.catalan {
        BANNER_X_MAX_CATALAN as int
    } else {
        BANNER_X_MAX_DEFAULT as int
    }
    &&& BANNER_Y_MIN <= b.y < BANNER_Y_MAX
}

/// Draws the placeholder text's wording and position.
pub fn randomize_banner(rs: &mut RandomSource) -> (b: UnavailableBanner)
    ensures
        banner_wf(b),
{
    if rs.flip() {
        let x = rs.range_i64(BANNER_X_MIN, BANNER_X_MAX_DEFAULT);
        let y = rs.range_i64(BANNER_Y_MIN, BANNER_Y_MAX);
        UnavailableBanner { catalan: false, x, y }
    } else {
        let x = rs.range_i64(BANNER_X_MIN, BANNER_X_MAX_CATALAN);
        let y = rs.range_i64(BANNER_Y_MIN, BANNER_Y_MAX);
        UnavailableBanner { catalan: true, x, y }
    }
}

impl UnavailableBanner {
    /// The wording of the placeholder text, naming the hour and minute at
    /// which cats come back.
    pub fn text(&self) -> (r: &'static str)
        ensures
            r@ == if self.catalan {
                "torna a 2:22"@
            } else {
                "come back at 2:22"@
            },
    {
        if self.catalan {
            "torna a 2:22"
        } else {
            "come back at 2:22"
        }
    }
}

} // verus!
