//! The parametric randomizer: design bands, branch structure, and
//! reproducibility under a fixed seed.

use makeacat::params::{
    randomize_banner, randomize_cat, randomize_pose, CatParams, TailShape, BANNER_X_MAX_CATALAN,
    BANNER_X_MAX_DEFAULT, BANNER_X_MIN, BANNER_Y_MAX, BANNER_Y_MIN, BODY_RX_MAX, BODY_RX_MIN,
    BODY_RY_MAX, BODY_RY_MIN, EAR_JITTER, EYE_R_MAX, EYE_R_MIN, HALF_TURN, LEG_RX_MAX, LEG_RX_MIN,
    LEG_RY_MAX, LEG_RY_MIN, NECK_HALF_MAX, NECK_HALF_MIN, NOSE_B_BASE, NOSE_C_BASE,
    NOSE_JITTER_MAX, NOSE_JITTER_MIN, NOSE_P_BASE, POSE_ANCHOR_X, POSE_ANCHOR_Y, POSE_JITTER_X,
    POSE_JITTER_Y, POSE_SCALE_BASE, POSE_SCALE_JITTER, TAIL_CUBIC_C1X_MAX, TAIL_CUBIC_C1X_MIN,
    TAIL_CUBIC_C1Y_MAX, TAIL_CUBIC_C2X_MIN, TAIL_CUBIC_C2Y_MAX, TAIL_CUBIC_C2Y_MIN,
    TAIL_CUBIC_SCALE_MAX, TAIL_CUBIC_SCALE_MIN, TAIL_CUBIC_TOX_MAX, TAIL_CUBIC_TOX_MIN,
    TAIL_CUBIC_TOY_MAX, TAIL_CUBIC_TOY_MIN, TAIL_EXTREME_SCALE, TAIL_LINE_DX_MAX,
    TAIL_LINE_DX_MIN, TAIL_LINE_DY, TAIL_QUAD_CX_MAX, TAIL_QUAD_CX_MIN, TAIL_QUAD_CY_MAX,
    TAIL_QUAD_SCALE_MAX, TAIL_QUAD_SCALE_MIN, TAIL_QUAD_TOX_MAX, TAIL_QUAD_TOX_MIN,
    TAIL_QUAD_TOY_MAX, TAIL_QUAD_TOY_MIN,
};
use makeacat::rng::RandomSource;
use makeacat::style::{Color, COLOR_CHANNEL_MAX, COLOR_CHANNEL_MIN};

fn assert_light(c: Color) {
    assert!(COLOR_CHANNEL_MIN <= c.r && c.r <= COLOR_CHANNEL_MAX);
    assert!(COLOR_CHANNEL_MIN <= c.g && c.g <= COLOR_CHANNEL_MAX);
    assert!(COLOR_CHANNEL_MIN <= c.b && c.b <= COLOR_CHANNEL_MAX);
    assert_eq!(c.a, 255);
}

#[test]
fn parameters_stay_inside_their_design_bands() {
    for seed in 0..200u64 {
        let mut rs = RandomSource::from_seed(seed);
        let p = randomize_cat(&mut rs);
        assert!(POSE_SCALE_BASE - POSE_SCALE_JITTER <= p.pose.scale_x);
        assert!(p.pose.scale_x < POSE_SCALE_BASE + POSE_SCALE_JITTER);
        assert!(POSE_SCALE_BASE - POSE_SCALE_JITTER <= p.pose.scale_y);
        assert!(p.pose.scale_y < POSE_SCALE_BASE + POSE_SCALE_JITTER);
        assert!(-HALF_TURN <= p.pose.rotation && p.pose.rotation < HALF_TURN);
        assert!(POSE_ANCHOR_X - POSE_JITTER_X <= p.pose.tx);
        assert!(p.pose.tx < POSE_ANCHOR_X + POSE_JITTER_X);
        assert!(POSE_ANCHOR_Y - POSE_JITTER_Y <= p.pose.ty);
        assert!(p.pose.ty < POSE_ANCHOR_Y + POSE_JITTER_Y);
        assert!(NECK_HALF_MIN <= p.neck_half && p.neck_half < NECK_HALF_MAX);
        assert!(BODY_RX_MIN <= p.body_rx && p.body_rx < BODY_RX_MAX);
        assert!(BODY_RY_MIN <= p.body_ry && p.body_ry < BODY_RY_MAX);
        assert!(LEG_RX_MIN <= p.leg_rx && p.leg_rx < LEG_RX_MAX);
        assert!(LEG_RY_MIN <= p.leg_ry && p.leg_ry < LEG_RY_MAX);
        assert!(-EAR_JITTER <= p.ear_jx && p.ear_jx < EAR_JITTER);
        assert!(-EAR_JITTER <= p.ear_jy && p.ear_jy < EAR_JITTER);
        assert!(EYE_R_MIN <= p.eye_r && p.eye_r < EYE_R_MAX);
        assert!(NOSE_P_BASE + NOSE_JITTER_MIN <= p.nose_px);
        assert!(p.nose_px < NOSE_P_BASE + NOSE_JITTER_MAX);
        assert!(NOSE_C_BASE + NOSE_JITTER_MIN <= p.nose_cx);
        assert!(p.nose_cx < NOSE_C_BASE + NOSE_JITTER_MAX);
        assert!(NOSE_B_BASE + NOSE_JITTER_MIN <= p.nose_by);
        assert!(p.nose_by < NOSE_B_BASE + NOSE_JITTER_MAX);
        assert_light(p.neck_color);
        assert_light(p.leg_color_outer_left);
        assert_light(p.leg_color_inner_left);
        assert_light(p.leg_color_inner_right);
        assert_light(p.leg_color_outer_right);
        assert_light(p.body_color);
        assert_light(p.ear_color);
        assert_light(p.head_color);
        match p.tail {
            TailShape::Line { dx, dy } => {
                let plain = TAIL_LINE_DX_MIN <= dx
                    && dx < TAIL_LINE_DX_MAX
                    && -TAIL_LINE_DY <= dy
                    && dy < TAIL_LINE_DY;
                let extreme = TAIL_EXTREME_SCALE * TAIL_LINE_DX_MIN <= dx
                    && dx < TAIL_EXTREME_SCALE * TAIL_LINE_DX_MAX
                    && -(TAIL_EXTREME_SCALE * TAIL_LINE_DY) <= dy
                    && dy < TAIL_EXTREME_SCALE * TAIL_LINE_DY;
                assert!(plain || extreme);
            }
            TailShape::Cubic { c1x, c1y, c2x, c2y, tox, toy } => {
                assert!(TAIL_CUBIC_SCALE_MIN * TAIL_CUBIC_C1X_MIN / 1000 <= c1x);
                assert!(c1x < TAIL_CUBIC_SCALE_MAX * TAIL_CUBIC_C1X_MAX / 1000);
                assert!(c1y.abs() < TAIL_CUBIC_SCALE_MAX * TAIL_CUBIC_C1Y_MAX / 1000);
                assert!(TAIL_CUBIC_SCALE_MAX * TAIL_CUBIC_C2X_MIN / 1000 <= c2x && c2x < 0);
                assert!(TAIL_CUBIC_SCALE_MIN * TAIL_CUBIC_C2Y_MIN / 1000 <= c2y.abs());
                assert!(c2y.abs() < TAIL_CUBIC_SCALE_MAX * TAIL_CUBIC_C2Y_MAX / 1000);
                assert!(TAIL_CUBIC_SCALE_MIN * TAIL_CUBIC_TOX_MIN / 1000 <= tox);
                assert!(tox < TAIL_CUBIC_SCALE_MAX * TAIL_CUBIC_TOX_MAX / 1000);
                assert!(TAIL_CUBIC_SCALE_MIN * TAIL_CUBIC_TOY_MIN / 1000 <= toy.abs());
                assert!(toy.abs() < TAIL_CUBIC_SCALE_MAX * TAIL_CUBIC_TOY_MAX / 1000);
            }
            TailShape::Quad { cx, cy, tox, toy } => {
                assert!(TAIL_QUAD_SCALE_MIN * TAIL_QUAD_CX_MIN / 1000 <= cx);
                assert!(cx < TAIL_QUAD_SCALE_MAX * TAIL_QUAD_CX_MAX / 1000);
                assert!(cy.abs() < TAIL_QUAD_SCALE_MAX * TAIL_QUAD_CY_MAX / 1000);
                assert!(TAIL_QUAD_SCALE_MIN * TAIL_QUAD_TOX_MIN / 1000 <= tox);
                assert!(tox < TAIL_QUAD_SCALE_MAX * TAIL_QUAD_TOX_MAX / 1000);
                assert!(TAIL_QUAD_SCALE_MIN * TAIL_QUAD_TOY_MIN / 1000 <= toy.abs());
                assert!(toy.abs() < TAIL_QUAD_SCALE_MAX * TAIL_QUAD_TOY_MAX / 1000);
            }
        }
    }
}

#[test]
fn tail_branches_all_occur() {
    let mut line = 0u32;
    let mut cubic = 0u32;
    let mut quad = 0u32;
    for seed in 0..400u64 {
        let mut rs = RandomSource::from_seed(seed);
        match randomize_cat(&mut rs).tail {
            TailShape::Line { .. } => line += 1,
            TailShape::Cubic { .. } => cubic += 1,
            TailShape::Quad { .. } => quad += 1,
        }
    }
    // The straight tail is rare (one in twenty); the curved branches split
    // the rest roughly evenly.
    assert!(line > 0 && cubic > 0 && quad > 0);
    assert!(line < cubic && line < quad);
}

#[test]
fn equal_seeds_draw_equal_parameters() {
    for seed in [0u64, 1, 42, 31337] {
        let mut a = RandomSource::from_seed(seed);
        let mut b = RandomSource::from_seed(seed);
        let pa = randomize_cat(&mut a);
        let pb = randomize_cat(&mut b);
        assert_eq!(pa, pb);
    }
}

#[test]
fn different_seeds_draw_different_parameters() {
    let mut distinct = 0u32;
    let mut prev: Option<CatParams> = None;
    for seed in 0..20u64 {
        let mut rs = RandomSource::from_seed(seed);
        let p = randomize_cat(&mut rs);
        if let Some(q) = prev {
            if q != p {
                distinct += 1;
            }
        }
        prev = Some(p);
    }
    assert!(distinct >= 18);
}

#[test]
fn pose_rotation_spans_both_directions() {
    let mut negative = false;
    let mut positive = false;
    for seed in 0..100u64 {
        let mut rs = RandomSource::from_seed(seed);
        let pose = randomize_pose(&mut rs);
        if pose.rotation < 0 {
            negative = true;
        }
        if pose.rotation > 0 {
            positive = true;
        }
    }
    assert!(negative && positive);
}

#[test]
fn banner_stays_inside_its_layout_box() {
    let mut catalan_seen = false;
    let mut default_seen = false;
    for seed in 0..100u64 {
        let mut rs = RandomSource::from_seed(seed);
        let b = randomize_banner(&mut rs);
        assert!(BANNER_Y_MIN <= b.y && b.y < BANNER_Y_MAX);
        assert!(BANNER_X_MIN <= b.x);
        if b.catalan {
            catalan_seen = true;
            assert!(b.x < BANNER_X_MAX_CATALAN);
            assert_eq!(b.text(), "torna a 2:22");
        } else {
            default_seen = true;
            assert!(b.x < BANNER_X_MAX_DEFAULT);
            assert_eq!(b.text(), "come back at 2:22");
        }
    }
    assert!(catalan_seen && default_seen);
}
