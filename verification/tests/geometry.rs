//! Path building and the ellipse approximation.

use makeacat::geom::{PathBuilder, Point, Segment};
use makeacat::ellipse::{ellipse, ELLIPSE_SEGMENTS};

#[test]
fn builder_records_segments_in_order() {
    let mut pb = PathBuilder::new();
    pb.move_to(1, 2);
    pb.line_to(3, 4);
    pb.quad_to(5, 6, 7, 8);
    pb.cubic_to(9, 10, 11, 12, 13, 14);
    pb.close();
    let path = pb.finish();
    let segs = path.segments();
    assert_eq!(segs.len(), 5);
    assert_eq!(segs[0], Segment::MoveTo(Point { x: 1, y: 2 }));
    assert_eq!(segs[1], Segment::LineTo(Point { x: 3, y: 4 }));
    assert_eq!(
        segs[2],
        Segment::QuadTo(Point { x: 5, y: 6 }, Point { x: 7, y: 8 })
    );
    assert_eq!(
        segs[3],
        Segment::CubicTo(
            Point { x: 9, y: 10 },
            Point { x: 11, y: 12 },
            Point { x: 13, y: 14 }
        )
    );
    assert_eq!(segs[4], Segment::Close);
}

#[test]
fn empty_path_is_legal() {
    let path = PathBuilder::new().finish();
    assert_eq!(path.segments().len(), 0);
}

#[test]
fn rect_is_four_lines_closed() {
    let mut pb = PathBuilder::new();
    pb.rect(-2, -3, 4, 6);
    let path = pb.finish();
    let segs = path.segments();
    assert_eq!(segs[0], Segment::MoveTo(Point { x: -2, y: -3 }));
    assert_eq!(segs[1], Segment::LineTo(Point { x: 2, y: -3 }));
    assert_eq!(segs[2], Segment::LineTo(Point { x: 2, y: 3 }));
    assert_eq!(segs[3], Segment::LineTo(Point { x: -2, y: 3 }));
    assert_eq!(segs[4], Segment::Close);
}

/// The on-curve points the ellipse emits: the initial move and each
/// quadratic segment's endpoint.
fn on_curve_points(cx: i64, cy: i64, rx: i64, ry: i64) -> Vec<(i64, i64)> {
    let mut pb = PathBuilder::new();
    ellipse(&mut pb, cx, cy, rx, ry);
    let path = pb.finish();
    let mut pts = Vec::new();
    for seg in path.segments() {
        match seg {
            Segment::MoveTo(p) => pts.push((p.x, p.y)),
            Segment::QuadTo(_, p) => pts.push((p.x, p.y)),
            _ => panic!("an ellipse holds only a move and quadratics"),
        }
    }
    pts
}

#[test]
fn ellipse_starts_rightmost_and_closes_the_loop() {
    let pts = on_curve_points(10_000, -4_000, 8_000, 5_000);
    assert_eq!(pts.len(), ELLIPSE_SEGMENTS as usize + 1);
    assert_eq!(pts[0], (18_000, -4_000));
    assert_eq!(pts[8], pts[0]);
}

#[test]
fn ellipse_points_lie_near_the_true_ellipse() {
    // Every sampled on-curve point satisfies the implicit equation within
    // one percent, as the tolerance law states.
    for &(cx, cy, rx, ry) in
        &[(0i64, 0i64, 10_000i64, 10_000i64), (-3_000, 7_000, 55_000, 25_000), (9, 9, 2_700, 3_299)]
    {
        for (x, y) in on_curve_points(cx, cy, rx, ry) {
            let dx = (x - cx) as i128;
            let dy = (y - cy) as i128;
            let rx = rx as i128;
            let ry = ry as i128;
            let residual = dx * dx * ry * ry + dy * dy * rx * rx - rx * rx * ry * ry;
            assert!(100 * residual.abs() <= rx * rx * ry * ry);
        }
    }
}

#[test]
fn ellipse_interior_curve_points_lie_near_the_true_ellipse() {
    // Points sampled along each emitted quadratic segment, not only its
    // endpoints, satisfy the implicit equation within a small fixed
    // tolerance (two percent on the residual).
    for &(cx, cy, rx, ry) in
        &[(0i64, 0i64, 10_000i64, 10_000i64), (-3_000, 7_000, 55_000, 25_000), (0, 0, 25_000, 24_000)]
    {
        let mut pb = PathBuilder::new();
        ellipse(&mut pb, cx, cy, rx, ry);
        let path = pb.finish();
        let segs = path.segments();
        let mut cur = match segs[0] {
            Segment::MoveTo(p) => (p.x as f64, p.y as f64),
            _ => panic!("an ellipse opens with a move"),
        };
        for seg in segs.iter().skip(1) {
            let (ctrl, end) = match seg {
                Segment::QuadTo(c, p) => ((c.x as f64, c.y as f64), (p.x as f64, p.y as f64)),
                _ => panic!("an ellipse continues with quadratics"),
            };
            for t in [0.25f64, 0.5, 0.75] {
                let u = 1.0 - t;
                let px = u * u * cur.0 + 2.0 * u * t * ctrl.0 + t * t * end.0;
                let py = u * u * cur.1 + 2.0 * u * t * ctrl.1 + t * t * end.1;
                let nx = (px - cx as f64) / rx as f64;
                let ny = (py - cy as f64) / ry as f64;
                let residual = nx * nx + ny * ny - 1.0;
                assert!(residual.abs() <= 0.02);
            }
            cur = end;
        }
    }
}

#[test]
fn degenerate_radii_collapse_to_a_point() {
    // A zero radius is accepted and every sampled point sits on the
    // center's axis, not an error.
    let pts = on_curve_points(5_000, 6_000, 0, 0);
    for (x, y) in pts {
        assert_eq!((x, y), (5_000, 6_000));
    }
}
