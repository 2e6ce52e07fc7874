//! Ellipse approximation.
//!
//! A full ellipse is treated as an elliptical arc spanning a whole turn,
//! starting at the rightmost point, and subdivided into eight quadratic
//! Bezier segments. Segment endpoints sit on the ellipse at multiples of an
//! eighth of a turn; each control point is the intersection of the tangents
//! at the two neighbouring endpoints. The unit-circle positions of those
//! points are carried as fixed-point constants scaled by one thousand.

use vstd::prelude::*;

use vstd::arithmetic::div_mod::{lemma_fundamental_div_mod, lemma_mod_bound};

use crate::geom::{path_wf, PathBuilder, Point, Segment};

verus! {

/// Number of quadratic Bezier segments an ellipse is subdivided into.
pub const ELLIPSE_SEGMENTS: u32 = 8;

/// Unit-circle x coordinate (scaled by 1000) of endpoint `k` of the
/// subdivision, at angle `k` eighths of a turn from the rightmost point.
pub open spec fn unit_x(k: int) -> int {
    if k == 0 || k == 8 {
        1000
    } else if k == 1 || k == 7 {
        707
    } else if k == 2 || k == 6 {
        0
    } else if k == 3 || k == 5 {
        -707
    } else {
        -1000
    }
}

/// Unit-circle y coordinate (scaled by 1000) of endpoint `k`.
pub open spec fn unit_y(k: int) -> int {
    if k == 0 || k == 4 || k == 8 {
        0
    } else if k == 1 || k == 2 || k == 3 {
        if k == 2 {
            1000
        } else {
            707
        }
    } else {
        if k == 6 {
            -1000
        } else {
            -707
        }
    }
}

/// Tangent-intersection x coordinate (scaled by 1000) of the control point
/// of segment `k`, which spans endpoints `k` and `k + 1`.
pub open spec fn ctrl_x(k: int) -> int {
    if k == 0 || k == 7 {
        1000
    } else if k == 1 || k == 6 {
        414
    } else if k == 2 || k == 5 {
        -414
    } else {
        -1000
    }
}

/// Tangent-intersection y coordinate (scaled by 1000) of the control point
/// of segment `k`.
pub open spec fn ctrl_y(k: int) -> int {
    if k == 0 || k == 3 {
        414
    } else if k == 1 || k == 2 {
        1000
    } else if k == 4 || k == 7 {
        -414
    } else {
        -1000
    }
}

/// A radius scaled by a unit-circle coordinate: `r * u / 1000`, with the
/// (Euclidean) division rounding toward minus infinity.
pub open spec fn scale_unit(r: int, u: int) -> int {
    (r * u) / 1000
}

/// x coordinate of endpoint `k` of the ellipse with center `(cx, _)` and
/// x radius `rx`.
pub open spec fn ell_px(cx: int, rx: int, k: int) -> int {
    cx + scale_unit(rx, unit_x(k))
}

/// y coordinate of endpoint `k` of the ellipse with center `(_, cy)` and
/// y radius `ry`.
pub open spec fn ell_py(cy: int, ry: int, k: int) -> int {
    cy + scale_unit(ry, unit_y(k))
}

/// The endpoint `k` of the approximated ellipse.
pub open spec fn ell_point(cx: int, cy: int, rx: int, ry: int, k: int) -> Point {
    Point { x: ell_px(cx, rx, k) as i64, y: ell_py(cy, ry, k) as i64 }
}

/// The control point of segment `k` of the approximated ellipse.
pub open spec fn ell_ctrl(cx: int, cy: int, rx: int, ry: int, k: int) -> Point {
    Point {
        x: (cx + scale_unit(rx, ctrl_x(k))) as i64,
        y: (cy + scale_unit(ry, ctrl_y(k))) as i64,
    }
}

/// The segments emitted for the full ellipse: a `MoveTo` to the rightmost
/// point followed by eight quadratic segments, ending back at the start.
pub open spec fn ellipse_segments(cx: int, cy: int, rx: int, ry: int) -> Seq<Segment> {
    seq![
        Segment::MoveTo(ell_point(cx, cy, rx, ry, 0)),
        Segment::QuadTo(ell_ctrl(cx, cy, rx, ry, 0), ell_point(cx, cy, rx, ry, 1)),
        Segment::QuadTo(ell_ctrl(cx, cy, rx, ry, 1), ell_point(cx, cy, rx, ry, 2)),
        Segment::QuadTo(ell_ctrl(cx, cy, rx, ry, 2), ell_point(cx, cy, rx, ry, 3)),
        Segment::QuadTo(ell_ctrl(cx, cy, rx, ry, 3), ell_point(cx, cy, rx, ry, 4)),
        Segment::QuadTo(ell_ctrl(cx, cy, rx, ry, 4), ell_point(cx, cy, rx, ry, 5)),
        Segment::QuadTo(ell_ctrl(cx, cy, rx, ry, 5), ell_point(cx, cy, rx, ry, 6)),
        Segment::QuadTo(ell_ctrl(cx, cy, rx, ry, 6), ell_point(cx, cy, rx, ry, 7)),
        Segment::QuadTo(ell_ctrl(cx, cy, rx, ry, 7), ell_point(cx, cy, rx, ry, 8)),
    ]
}

/// Bound on the center coordinates and radii accepted by `ellipse`,
/// in milli-units.
pub const ELLIPSE_COORD_BOUND: i64 = 1_000_000;

/// Multiplies a radius by a unit-circle coordinate scaled by 1000.
fn scale_milli(r: i64, u: i64) -> (s: i64)
    requires
        -ELLIPSE_COORD_BOUND <= r <= ELLIPSE_COORD_BOUND,
        -1000 <= u <= 1000,
    ensures
        s == scale_unit(r as int, u as int),
        -ELLIPSE_COORD_BOUND - 1 <= s <= ELLIPSE_COORD_BOUND,
{
    proof {
        assert(-1_000_000_000 <= r * u <= 1_000_000_000) by (nonlinear_arith)
            requires
                -1_000_000 <= r <= 1_000_000,
                -1000 <= u <= 1000,
        ;
    }
    let prod: i64 = r * u;
    let s = prod.checked_div_euclid(1000).unwrap();
    proof {
        assert((r * u) / 1000 * 1000 <= r * u < ((r * u) / 1000 + 1) * 1000) by (nonlinear_arith);
    }
    s
}

/// Appends to `pb` a closed-loop approximation of the full ellipse with
/// center `(x, y)` and radii `(width, height)`: a `MoveTo` to the arc's
/// start point and one quadratic segment per subdivision, ending back at
/// the start point. Degenerate radii produce a degenerate path, not an
/// error. The caller appends `Close` where a hard seam is required.
pub fn ellipse(pb: &mut PathBuilder, x: i64, y: i64, width: i64, height: i64)
    requires
        -ELLIPSE_COORD_BOUND <= x <= ELLIPSE_COORD_BOUND,
        -ELLIPSE_COORD_BOUND <= y <= ELLIPSE_COORD_BOUND,
        -ELLIPSE_COORD_BOUND <= width <= ELLIPSE_COORD_BOUND,
        -ELLIPSE_COORD_BOUND <= height <= ELLIPSE_COORD_BOUND,
    ensures
        final(pb)@ == old(pb)@ + ellipse_segments(x as int, y as int, width as int, height as int),
{
    pb.move_to(x + scale_milli(width, 1000), y + scale_milli(height, 0));
    pb.quad_to(
        x + scale_milli(width, 1000), y + scale_milli(height, 414),
        x + scale_milli(width, 707), y + scale_milli(height, 707),
    );
    pb.quad_to(
        x + scale_milli(width, 414), y + scale_milli(height, 1000),
        x + scale_milli(width, 0), y + scale_milli(height, 1000),
    );
    pb.quad_to(
        x + scale_milli(width, -414), y + scale_milli(height, 1000),
        x + scale_milli(width, -707), y + scale_milli(height, 707),
    );
    pb.quad_to(
        x + scale_milli(width, -1000), y + scale_milli(height, 414),
        x + scale_milli(width, -1000), y + scale_milli(height, 0),
    );
    pb.quad_to(
        x + scale_milli(width, -1000), y + scale_milli(height, -414),
        x + scale_milli(width, -707), y + scale_milli(height, -707),
    );
    pb.quad_to(
        x + scale_milli(width, -414), y + scale_milli(height, -1000),
        x + scale_milli(width, 0), y + scale_milli(height, -1000),
    );
    pb.quad_to(
        x + scale_milli(width, 414), y + scale_milli(height, -1000),
        x + scale_milli(width, 707), y + scale_milli(height, -707),
    );
    pb.quad_to(
        x + scale_milli(width, 1000), y + scale_milli(height, -414),
        x + scale_milli(width, 1000), y + scale_milli(height, 0),
    );
    proof {
        assert(final(pb)@ =~= old(pb)@ + ellipse_segments(
            x as int, y as int, width as int, height as int,
        ));
    }
}

/// Residual of the implicit ellipse equation at offset `(dx, dy)` from the
/// center, cleared of denominators: it is zero exactly when
/// `(dx/rx)^2 + (dy/ry)^2 = 1`.
pub open spec fn ellipse_residual(dx: int, dy: int, rx: int, ry: int) -> int {
    dx * dx * (ry * ry) + dy * dy * (rx * rx) - rx * rx * (ry * ry)
}

/// Floor division error, squared: `1000000 * x^2` stays within
/// `3000000 * r` of `(r * u)^2` when `x = r * u / 1000`.
proof fn lemma_scale_sq_err(r: int, u: int)
    requires
        1 <= r,
        -1000 <= u <= 1000,
    ensures
        -3_000_000 * r <= 1_000_000 * (scale_unit(r, u) * scale_unit(r, u)) - (r * u) * (r * u),
        1_000_000 * (scale_unit(r, u) * scale_unit(r, u)) - (r * u) * (r * u) <= 3_000_000 * r,
{
    let x = scale_unit(r, u);
    lemma_fundamental_div_mod(r * u, 1000);
    lemma_mod_bound(r * u, 1000);
    let e = (r * u) % 1000;
    assert(r * u == 1000 * x + e);
    assert({
        &&& -3_000_000 * r <= 1_000_000 * (x * x) - (r * u) * (r * u)
        &&& 1_000_000 * (x * x) - (r * u) * (r * u) <= 3_000_000 * r
    }) by (nonlinear_arith)
        requires
            r * u == 1000 * x + e,
            0 <= e < 1000,
            1 <= r,
            -1000 <= u <= 1000,
    ;
}

/// Every on-curve point the approximation emits lies within a one-percent
/// tolerance of the true ellipse: the cleared implicit-equation residual at
/// sampled endpoint `k` is at most a hundredth of its leading coefficient.
pub proof fn lemma_ellipse_point_tolerance(cx: int, cy: int, rx: int, ry: int, k: int)
    requires
        1000 <= rx,
        1000 <= ry,
        0 <= k <= 8,
    ensures
        ({
            let res = ellipse_residual(
                ell_px(cx, rx, k) - cx,
                ell_py(cy, ry, k) - cy,
                rx,
                ry,
            );
            -(rx * rx * (ry * ry)) <= 100 * res <= rx * rx * (ry * ry)
        }),
{
    let u = unit_x(k);
    let v = unit_y(k);
    let x = scale_unit(rx, u);
    let y = scale_unit(ry, v);
    assert(ell_px(cx, rx, k) - cx == x);
    assert(ell_py(cy, ry, k) - cy == y);
    assert(999_698 <= u * u + v * v <= 1_000_000);
    let xx = x * x;
    let yy = y * y;
    let rxx = rx * rx;
    let ryy = ry * ry;
    let aa = (rx * u) * (rx * u);
    let bb = (ry * v) * (ry * v);
    lemma_scale_sq_err(rx, u);
    lemma_scale_sq_err(ry, v);
    // Scale the per-coordinate error bounds by the opposite squared radius.
    assert({
        &&& -3_000_000 * rx * ryy <= 1_000_000 * xx * ryy - aa * ryy
        &&& 1_000_000 * xx * ryy - aa * ryy <= 3_000_000 * rx * ryy
    }) by (nonlinear_arith)
        requires
            -3_000_000 * rx <= 1_000_000 * xx - aa <= 3_000_000 * rx,
            ryy == ry * ry,
    ;
    assert({
        &&& -3_000_000 * ry * rxx <= 1_000_000 * yy * rxx - bb * rxx
        &&& 1_000_000 * yy * rxx - bb * rxx <= 3_000_000 * ry * rxx
    }) by (nonlinear_arith)
        requires
            -3_000_000 * ry <= 1_000_000 * yy - bb <= 3_000_000 * ry,
            rxx == rx * rx,
    ;
    // The exact squares recombine into the unit-circle residual.
    assert(aa == (u * u) * rxx) by (nonlinear_arith)
        requires
            aa == (rx * u) * (rx * u),
            rxx == rx * rx,
    ;
    assert(bb == (v * v) * ryy) by (nonlinear_arith)
        requires
            bb == (ry * v) * (ry * v),
            ryy == ry * ry,
    ;
    assert(aa * ryy + bb * rxx == (u * u + v * v) * (rxx * ryy)) by (nonlinear_arith)
        requires
            aa == (u * u) * rxx,
            bb == (v * v) * ryy,
    ;
    assert({
        &&& -302 * (rxx * ryy) <= (u * u + v * v) * (rxx * ryy) - 1_000_000 * (rxx * ryy)
        &&& (u * u + v * v) * (rxx * ryy) - 1_000_000 * (rxx * ryy) <= 0
    }) by (nonlinear_arith)
        requires
            999_698 <= u * u + v * v <= 1_000_000,
            rxx >= 0,
            ryy >= 0,
            rxx == rx * rx,
            ryy == ry * ry,
    ;
    // With radii of at least one canvas unit the scaled error terms are
    // small next to the leading coefficient.
    assert(3_000_000 * rx * ryy <= 3_000 * (rxx * ryy)) by (nonlinear_arith)
        requires
            rx >= 1000,
            ryy >= 0,
            rxx == rx * rx,
    ;
    assert(3_000_000 * ry * rxx <= 3_000 * (rxx * ryy)) by (nonlinear_arith)
        requires
            ry >= 1000,
            rxx >= 0,
            ryy == ry * ry,
    ;
    let res = xx * ryy + yy * rxx - rxx * ryy;
    assert({
        &&& -6_302 * (rxx * ryy) <= 1_000_000 * res
        &&& 1_000_000 * res <= 6_302 * (rxx * ryy)
    }) by (nonlinear_arith)
        requires
            -3_000_000 * rx * ryy <= 1_000_000 * xx * ryy - aa * ryy <= 3_000_000 * rx * ryy,
            -3_000_000 * ry * rxx <= 1_000_000 * yy * rxx - bb * rxx <= 3_000_000 * ry * rxx,
            aa * ryy + bb * rxx == (u * u + v * v) * (rxx * ryy),
            -302 * (rxx * ryy) <= (u * u + v * v) * (rxx * ryy) - 1_000_000 * (rxx * ryy) <= 0,
            3_000_000 * rx * ryy <= 3_000 * (rxx * ryy),
            3_000_000 * ry * rxx <= 3_000 * (rxx * ryy),
            res == xx * ryy + yy * rxx - rxx * ryy,
    ;
    assert({
        &&& -(rxx * ryy) <= 100 * res
        &&& 100 * res <= rxx * ryy
    }) by (nonlinear_arith)
        requires
            -6_302 * (rxx * ryy) <= 1_000_000 * res <= 6_302 * (rxx * ryy),
            rxx * ryy >= 0,
    ;
    assert(ellipse_residual(x, y, rx, ry) == res) by (nonlinear_arith)
        requires
            res == xx * ryy + yy * rxx - rxx * ryy,
            xx == x * x,
            yy == y * y,
            rxx == rx * rx,
            ryy == ry * ry,
    ;
}

/// Four times the x offset from the center of segment `k`'s curve
/// midpoint: a quadratic Bezier at its parameter midpoint is a quarter of
/// the start point plus twice the control point plus the endpoint.
pub open spec fn mid4_dx(rx: int, k: int) -> int {
    scale_unit(rx, unit_x(k)) + 2 * scale_unit(rx, ctrl_x(k)) + scale_unit(rx, unit_x(k + 1))
}

/// Four times the y offset from the center of segment `k`'s curve
/// midpoint.
pub open spec fn mid4_dy(ry: int, k: int) -> int {
    scale_unit(ry, unit_y(k)) + 2 * scale_unit(ry, ctrl_y(k)) + scale_unit(ry, unit_y(k + 1))
}

/// Combined floor error of the three scaled coordinates that make four
/// times a midpoint offset: `1000000 * a4^2` stays within `48000000 * r`
/// of `(r * U)^2`, where `U` is the matching unit-coordinate combination.
proof fn lemma_mid4_sq_err(r: int, u0: int, uc: int, u1: int)
    requires
        1 <= r,
        -1000 <= u0 <= 1000,
        -1000 <= uc <= 1000,
        -1000 <= u1 <= 1000,
    ensures
        ({
            let a4 = scale_unit(r, u0) + 2 * scale_unit(r, uc) + scale_unit(r, u1);
            let lc = u0 + 2 * uc + u1;
            &&& -48_000_000 * r <= 1_000_000 * (a4 * a4) - (r * lc) * (r * lc)
            &&& 1_000_000 * (a4 * a4) - (r * lc) * (r * lc) <= 48_000_000 * r
        }),
{
    let a4 = scale_unit(r, u0) + 2 * scale_unit(r, uc) + scale_unit(r, u1);
    let lc = u0 + 2 * uc + u1;
    lemma_fundamental_div_mod(r * u0, 1000);
    lemma_mod_bound(r * u0, 1000);
    lemma_fundamental_div_mod(r * uc, 1000);
    lemma_mod_bound(r * uc, 1000);
    lemma_fundamental_div_mod(r * u1, 1000);
    lemma_mod_bound(r * u1, 1000);
    let e = (r * u0) % 1000 + 2 * ((r * uc) % 1000) + (r * u1) % 1000;
    assert(r * lc == 1000 * a4 + e) by (nonlinear_arith)
        requires
            r * u0 == 1000 * scale_unit(r, u0) + (r * u0) % 1000,
            r * uc == 1000 * scale_unit(r, uc) + (r * uc) % 1000,
            r * u1 == 1000 * scale_unit(r, u1) + (r * u1) % 1000,
            a4 == scale_unit(r, u0) + 2 * scale_unit(r, uc) + scale_unit(r, u1),
            e == (r * u0) % 1000 + 2 * ((r * uc) % 1000) + (r * u1) % 1000,
            lc == u0 + 2 * uc + u1,
    ;
    assert({
        &&& -48_000_000 * r <= 1_000_000 * (a4 * a4) - (r * lc) * (r * lc)
        &&& 1_000_000 * (a4 * a4) - (r * lc) * (r * lc) <= 48_000_000 * r
    }) by (nonlinear_arith)
        requires
            r * lc == 1000 * a4 + e,
            0 <= e < 4000,
            1 <= r,
            -4000 <= lc <= 4000,
    ;
}

/// The interior of the approximation stays close to the true ellipse as
/// well: the curve midpoint of every emitted quadratic segment satisfies
/// the implicit ellipse equation within a two-percent tolerance on the
/// cleared residual.
pub proof fn lemma_ellipse_midpoint_tolerance(rx: int, ry: int, k: int)
    requires
        1000 <= rx,
        1000 <= ry,
        0 <= k < 8,
    ensures
        ({
            let res = mid4_dx(rx, k) * mid4_dx(rx, k) * (ry * ry) + mid4_dy(ry, k) * mid4_dy(
                ry,
                k,
            ) * (rx * rx) - 16 * (rx * rx * (ry * ry));
            -(16 * (rx * rx * (ry * ry))) <= 50 * res <= 16 * (rx * rx * (ry * ry))
        }),
{
    let ux = unit_x(k) + 2 * ctrl_x(k) + unit_x(k + 1);
    let uy = unit_y(k) + 2 * ctrl_y(k) + unit_y(k + 1);
    let x4 = mid4_dx(rx, k);
    let y4 = mid4_dy(ry, k);
    // The unit-circle combination has the same squared length for every
    // segment: one eighth-turn chord bulged by its tangent control.
    assert((ux == 3707 || ux == -3707 || ux == 1535 || ux == -1535) && (uy == 3707 || uy == -3707
        || uy == 1535 || uy == -1535) && (ux == 3707 || ux == -3707 <==> uy == 1535 || uy
        == -1535));
    assert(ux * ux + uy * uy == 16_098_074) by (nonlinear_arith)
        requires
            (ux == 3707 || ux == -3707 || ux == 1535 || ux == -1535),
            (uy == 3707 || uy == -3707 || uy == 1535 || uy == -1535),
            (ux == 3707 || ux == -3707 <==> uy == 1535 || uy == -1535),
    ;
    let xx = x4 * x4;
    let yy = y4 * y4;
    let rxx = rx * rx;
    let ryy = ry * ry;
    let aa = (rx * ux) * (rx * ux);
    let bb = (ry * uy) * (ry * uy);
    lemma_mid4_sq_err(rx, unit_x(k), ctrl_x(k), unit_x(k + 1));
    lemma_mid4_sq_err(ry, unit_y(k), ctrl_y(k), unit_y(k + 1));
    // Scale the per-coordinate error bounds by the opposite squared radius.
    assert({
        &&& -48_000_000 * rx * ryy <= 1_000_000 * xx * ryy - aa * ryy
        &&& 1_000_000 * xx * ryy - aa * ryy <= 48_000_000 * rx * ryy
    }) by (nonlinear_arith)
        requires
            -48_000_000 * rx <= 1_000_000 * xx - aa <= 48_000_000 * rx,
            ryy == ry * ry,
    ;
    assert({
        &&& -48_000_000 * ry * rxx <= 1_000_000 * yy * rxx - bb * rxx
        &&& 1_000_000 * yy * rxx - bb * rxx <= 48_000_000 * ry * rxx
    }) by (nonlinear_arith)
        requires
            -48_000_000 * ry <= 1_000_000 * yy - bb <= 48_000_000 * ry,
            rxx == rx * rx,
    ;
    // The exact squares recombine into the unit-circle residual.
    assert(aa == (ux * ux) * rxx) by (nonlinear_arith)
        requires
            aa == (rx * ux) * (rx * ux),
            rxx == rx * rx,
    ;
    assert(bb == (uy * uy) * ryy) by (nonlinear_arith)
        requires
            bb == (ry * uy) * (ry * uy),
            ryy == ry * ry,
    ;
    assert(aa * ryy + bb * rxx == (ux * ux + uy * uy) * (rxx * ryy)) by (nonlinear_arith)
        requires
            aa == (ux * ux) * rxx,
            bb == (uy * uy) * ryy,
    ;
    assert({
        &&& 0 <= (ux * ux + uy * uy) * (rxx * ryy) - 16_000_000 * (rxx * ryy)
        &&& (ux * ux + uy * uy) * (rxx * ryy) - 16_000_000 * (rxx * ryy) <= 98_074 * (rxx * ryy)
    }) by (nonlinear_arith)
        requires
            ux * ux + uy * uy == 16_098_074,
            rxx >= 0,
            ryy >= 0,
    ;
    // With radii of at least one canvas unit the scaled error terms are
    // small next to the leading coefficient.
    assert(48_000_000 * rx * ryy <= 48_000 * (rxx * ryy)) by (nonlinear_arith)
        requires
            rx >= 1000,
            ryy >= 0,
            rxx == rx * rx,
    ;
    assert(48_000_000 * ry * rxx <= 48_000 * (rxx * ryy)) by (nonlinear_arith)
        requires
            ry >= 1000,
            rxx >= 0,
            ryy == ry * ry,
    ;
    let res = xx * ryy + yy * rxx - 16 * (rxx * ryy);
    assert({
        &&& -194_074 * (rxx * ryy) <= 1_000_000 * res
        &&& 1_000_000 * res <= 194_074 * (rxx * ryy)
    }) by (nonlinear_arith)
        requires
            -48_000_000 * rx * ryy <= 1_000_000 * xx * ryy - aa * ryy <= 48_000_000 * rx * ryy,
            -48_000_000 * ry * rxx <= 1_000_000 * yy * rxx - bb * rxx <= 48_000_000 * ry * rxx,
            aa * ryy + bb * rxx == (ux * ux + uy * uy) * (rxx * ryy),
            0 <= (ux * ux + uy * uy) * (rxx * ryy) - 16_000_000 * (rxx * ryy) <= 98_074 * (rxx
                * ryy),
            48_000_000 * rx * ryy <= 48_000 * (rxx * ryy),
            48_000_000 * ry * rxx <= 48_000 * (rxx * ryy),
            res == xx * ryy + yy * rxx - 16 * (rxx * ryy),
    ;
    assert({
        &&& -(16 * (rxx * ryy)) <= 50 * res
        &&& 50 * res <= 16 * (rxx * ryy)
    }) by (nonlinear_arith)
        requires
            -194_074 * (rxx * ryy) <= 1_000_000 * res <= 194_074 * (rxx * ryy),
            rxx * ryy >= 0,
    ;
}

/// The approximated ellipse is a closed loop: the endpoint of the last
/// quadratic segment is the point the initial `MoveTo` started at, and the
/// emitted sequence is well formed.
pub proof fn lemma_ellipse_closed(cx: int, cy: int, rx: int, ry: int)
    ensures
        ({
            let s = ellipse_segments(cx, cy, rx, ry);
            &&& s.len() == 9
            &&& s[0] == Segment::MoveTo(ell_point(cx, cy, rx, ry, 0))
            &&& s[8] matches Segment::QuadTo(_, p) && p == ell_point(cx, cy, rx, ry, 0)
            &&& path_wf(s)
        }),
{
    let s = ellipse_segments(cx, cy, rx, ry);
    assert(ell_point(cx, cy, rx, ry, 8) == ell_point(cx, cy, rx, ry, 0));
    assert forall|i: int| 0 <= i < s.len() && !(s[i] is MoveTo) implies exists|j: int|
        0 <= j < i && s[j] is MoveTo by {
        assert(s[0] is MoveTo);
    }
}

} // verus!
