//! Scene composition.
//!
//! Fixes the draw order and the transform hierarchy of the creature: which
//! path is painted when, in which style, and under which local frame. The
//! order is load-bearing: the rasterizer paints commands in sequence with
//! source-over blending, so a later command covers an earlier one wherever
//! they overlap (the head group covering the neck, for instance).

use vstd::prelude::*;

use crate::ellipse::{ellipse, ellipse_segments};
use crate::geom::{Path, PathBuilder, Point, Segment};
use crate::params::{params_wf, CatParams, Pose, TailShape};
use crate::style::{
    black, black_spec, black_stroke, fill_of, stroke, tail_stroke, FillRule, LineCap, LineJoin,
    Style, StrokeStyle, TAIL_STROKE_WIDTH, MITER_LIMIT,
};

verus! {

/// A local frame a path is drawn under: a rotation in milli-degrees
/// applied first, then a translation in milli-units, then the scene's
/// global pose.
#[derive(Clone, Copy, PartialEq, Eq, Structural, Debug)]
pub struct Frame {
    pub rotation: i64,
    pub tx: i64,
    pub ty: i64,
}

/// The identity frame: parts drawn directly under the global pose.
pub open spec fn frame_identity() -> Frame {
    Frame { rotation: 0, tx: 0, ty: 0 }
}

/// The neck's frame: rotated a thirtieth of a turn counterclockwise and
/// anchored above and left of the body center.
pub open spec fn neck_frame() -> Frame {
    Frame { rotation: -30_000i64, tx: -45_000i64, ty: -19_000i64 }
}

/// The fixed frame of leg `k`, left to right: the outer legs sit wide and
/// splay outward, the inner legs sit low and splay slightly.
pub open spec fn leg_frame(k: int) -> Frame {
    if k == 0 {
        Frame { rotation: 20_000, tx: -45_000i64, ty: 21_000 }
    } else if k == 1 {
        Frame { rotation: 5_000, tx: -25_000i64, ty: 26_000 }
    } else if k == 2 {
        Frame { rotation: -5_000i64, tx: 25_000, ty: 26_000 }
    } else {
        Frame { rotation: -20_000i64, tx: 45_000, ty: 21_000 }
    }
}

/// The head group's frame: translated to its anchor relative to the body.
pub open spec fn head_frame() -> Frame {
    Frame { rotation: 0, tx: -59_000i64, ty: -44_000i64 }
}

/// One rasterizer command: paint `path` under `frame` (then the global
/// pose) in `style`.
pub struct DrawCmd {
    pub path: Path,
    pub frame: Frame,
    pub style: Style,
}

/// The mathematical value of a command: the path as a segment sequence,
/// with its frame and style.
pub struct CmdView {
    pub path: Seq<Segment>,
    pub frame: Frame,
    pub style: Style,
}

impl View for DrawCmd {
    type V = CmdView;

    open spec fn view(&self) -> CmdView {
        CmdView { path: self.path@, frame: self.frame, style: self.style }
    }
}

/// The values of a command list, in order.
pub open spec fn cmds_view(cs: Seq<DrawCmd>) -> Seq<CmdView> {
    cs.map_values(|c: DrawCmd| c@)
}

/// A composed scene: the global pose and the paint commands in draw order.
pub struct Scene {
    pub pose: Pose,
    pub cmds: Vec<DrawCmd>,
}

/// x coordinate of the tail's base in body-local milli-units.
pub const TAIL_BASE_X: i64 = 60_000;

/// The tail path: from the base point, one straight or curved segment.
pub open spec fn tail_path(t: TailShape) -> Seq<Segment> {
    seq![Segment::MoveTo(Point { x: TAIL_BASE_X, y: 0 })] + match t {
        TailShape::Line { dx, dy } => seq![
            Segment::LineTo(Point { x: (TAIL_BASE_X + dx) as i64, y: dy }),
        ],
        TailShape::Cubic { c1x, c1y, c2x, c2y, tox, toy } => seq![
            Segment::CubicTo(
                Point { x: (TAIL_BASE_X + c1x) as i64, y: c1y },
                Point { x: (TAIL_BASE_X + c2x) as i64, y: c2y },
                Point { x: (TAIL_BASE_X + tox) as i64, y: toy },
            ),
        ],
        TailShape::Quad { cx, cy, tox, toy } => seq![
            Segment::QuadTo(
                Point { x: (TAIL_BASE_X + cx) as i64, y: cy },
                Point { x: (TAIL_BASE_X + tox) as i64, y: toy },
            ),
        ],
    }
}

/// The neck path: a closed square of half-extent `h` around the local
/// origin, sealed with an explicit extra `Close`.
pub open spec fn neck_path(h: int) -> Seq<Segment> {
    PathBuilder::rect_segments(-h, -h, 2 * h, 2 * h) + seq![Segment::Close]
}

/// The body path: an ellipse around the local origin, explicitly closed.
pub open spec fn body_path(rx: int, ry: int) -> Seq<Segment> {
    ellipse_segments(0, 0, rx, ry) + seq![Segment::Close]
}

/// The leg path: an ellipse around the local origin, left unsealed (the
/// loop already ends at its start point).
pub open spec fn leg_path(rx: int, ry: int) -> Seq<Segment> {
    ellipse_segments(0, 0, rx, ry)
}

/// The ear path: two triangles mirrored about the head's vertical axis,
/// their apexes jittered by `(jx, jy)`.
pub open spec fn ears_path(jx: int, jy: int) -> Seq<Segment> {
    seq![
        Segment::MoveTo(Point { x: 6_000, y: -25_000i64 }),
        Segment::LineTo(Point { x: (21_000 + jx) as i64, y: (-36_000 + jy) as i64 }),
        Segment::LineTo(Point { x: 21_000, y: -17_000i64 }),
        Segment::Close,
        Segment::MoveTo(Point { x: -6_000i64, y: -25_000i64 }),
        Segment::LineTo(Point { x: (-(21_000 + jx)) as i64, y: (-36_000 + jy) as i64 }),
        Segment::LineTo(Point { x: -21_000i64, y: -17_000i64 }),
        Segment::Close,
    ]
}

/// The head path: a fixed ellipse around the head origin, explicitly
/// closed.
pub open spec fn head_path() -> Seq<Segment> {
    ellipse_segments(0, 0, 25_000, 24_000) + seq![Segment::Close]
}

/// The eyes path: two circles of the shared radius `r`, one `Close` after
/// both.
pub open spec fn eyes_path(r: int) -> Seq<Segment> {
    ellipse_segments(9_000, -7_000, r, r) + ellipse_segments(-9_000, -7_000, r, r)
        + seq![Segment::Close]
}

/// The nose path: two mirrored cubic curves meeting at the mouth corners
/// `(±px, 5)`, the upper curve bending through `(±cx, -3)` and the lower
/// one through `(±1, by)`.
pub open spec fn nose_path(px: int, cx: int, by: int) -> Seq<Segment> {
    seq![
        Segment::MoveTo(Point { x: (-px) as i64, y: 5_000 }),
        Segment::CubicTo(
            Point { x: (-cx) as i64, y: -3_000i64 },
            Point { x: cx as i64, y: -3_000i64 },
            Point { x: px as i64, y: 5_000 },
        ),
        Segment::CubicTo(
            Point { x: 1_000, y: by as i64 },
            Point { x: -1_000i64, y: by as i64 },
            Point { x: (-px) as i64, y: 5_000 },
        ),
        Segment::Close,
    ]
}

/// The stroke style used for the tail: the default but wider.
pub open spec fn tail_style() -> Style {
    Style::Stroke { color: black_spec(), stroke: tail_stroke() }
}

/// The six commands of the head group, all under the head frame: ears
/// stroked then filled, the head ellipse stroked then filled, then eyes
/// and nose filled solid black.
pub open spec fn head_cmds(p: CatParams) -> Seq<CmdView> {
    seq![
        CmdView { path: ears_path(p.ear_jx as int, p.ear_jy as int), frame: head_frame(), style: black_stroke() },
        CmdView { path: ears_path(p.ear_jx as int, p.ear_jy as int), frame: head_frame(), style: fill_of(p.ear_color) },
        CmdView { path: head_path(), frame: head_frame(), style: black_stroke() },
        CmdView { path: head_path(), frame: head_frame(), style: fill_of(p.head_color) },
        CmdView { path: eyes_path(p.eye_r as int), frame: head_frame(), style: fill_of(black_spec()) },
        CmdView { path: nose_path(p.nose_px as int, p.nose_cx as int, p.nose_by as int), frame: head_frame(), style: fill_of(black_spec()) },
    ]
}

/// The thirteen commands painted before the head group: tail, neck, the
/// four legs left to right, then the body.
pub open spec fn base_cmds(p: CatParams) -> Seq<CmdView> {
    seq![
        CmdView { path: tail_path(p.tail), frame: frame_identity(), style: tail_style() },
        CmdView { path: neck_path(p.neck_half as int), frame: neck_frame(), style: black_stroke() },
        CmdView { path: neck_path(p.neck_half as int), frame: neck_frame(), style: fill_of(p.neck_color) },
        CmdView { path: leg_path(p.leg_rx as int, p.leg_ry as int), frame: leg_frame(0), style: black_stroke() },
        CmdView { path: leg_path(p.leg_rx as int, p.leg_ry as int), frame: leg_frame(0), style: fill_of(p.leg_color_outer_left) },
        CmdView { path: leg_path(p.leg_rx as int, p.leg_ry as int), frame: leg_frame(1), style: black_stroke() },
        CmdView { path: leg_path(p.leg_rx as int, p.leg_ry as int), frame: leg_frame(1), style: fill_of(p.leg_color_inner_left) },
        CmdView { path: leg_path(p.leg_rx as int, p.leg_ry as int), frame: leg_frame(2), style: black_stroke() },
        CmdView { path: leg_path(p.leg_rx as int, p.leg_ry as int), frame: leg_frame(2), style: fill_of(p.leg_color_inner_right) },
        CmdView { path: leg_path(p.leg_rx as int, p.leg_ry as int), frame: leg_frame(3), style: black_stroke() },
        CmdView { path: leg_path(p.leg_rx as int, p.leg_ry as int), frame: leg_frame(3), style: fill_of(p.leg_color_outer_right) },
        CmdView { path: body_path(p.body_rx as int, p.body_ry as int), frame: frame_identity(), style: black_stroke() },
        CmdView { path: body_path(p.body_rx as int, p.body_ry as int), frame: frame_identity(), style: fill_of(p.body_color) },
    ]
}

/// The full command list of one creature, in draw order: tail, neck, the
/// four legs left to right, body, then the head group.
pub open spec fn scene_cmds(p: CatParams) -> Seq<CmdView> {
    base_cmds(p) + head_cmds(p)
}

/// Appends the head group's commands: ears, head ellipse, eyes and nose,
/// drawn around the head-local origin under the head frame.
pub fn draw_head(p: &CatParams, cmds: &mut Vec<DrawCmd>)
    requires
        params_wf(*p),
    ensures
        cmds_view(final(cmds)@) == cmds_view(old(cmds)@) + head_cmds(*p),
{
    let ears = {
        let mut pb = PathBuilder::new();
        pb.move_to(6_000, -25_000);
        pb.line_to(21_000 + p.ear_jx, -36_000 + p.ear_jy);
        pb.line_to(21_000, -17_000);
        pb.close();
        pb.move_to(-6_000, -25_000);
        pb.line_to(-(21_000 + p.ear_jx), -36_000 + p.ear_jy);
        pb.line_to(-21_000, -17_000);
        pb.close();
        pb.finish()
    };
    proof {
        assert(ears@ =~= ears_path(p.ear_jx as int, p.ear_jy as int));
    }

    let head = {
        let mut pb = PathBuilder::new();
        ellipse(&mut pb, 0, 0, 25_000, 24_000);
        pb.close();
        pb.finish()
    };
    proof {
        assert(head@ =~= head_path());
    }

    let eyes = {
        let mut pb = PathBuilder::new();
        ellipse(&mut pb, 9_000, -7_000, p.eye_r, p.eye_r);
        ellipse(&mut pb, -9_000, -7_000, p.eye_r, p.eye_r);
        pb.close();
        pb.finish()
    };
    proof {
        assert(eyes@ =~= eyes_path(p.eye_r as int));
    }

    let nose = {
        let mut pb = PathBuilder::new();
        pb.move_to(-p.nose_px, 5_000);
        pb.cubic_to(-p.nose_cx, -3_000, p.nose_cx, -3_000, p.nose_px, 5_000);
        pb.cubic_to(1_000, p.nose_by, -1_000, p.nose_by, -p.nose_px, 5_000);
        pb.close();
        pb.finish()
    };
    proof {
        assert(nose@ =~= nose_path(p.nose_px as int, p.nose_cx as int, p.nose_by as int));
    }

    let head_frame_val = Frame { rotation: 0, tx: -59_000, ty: -44_000 };

    cmds.push(DrawCmd {
        path: ears.duplicate(),
        frame: head_frame_val,
        style: Style::Stroke { color: black(), stroke: stroke() },
    });
    cmds.push(DrawCmd {
        path: ears,
        frame: head_frame_val,
        style: Style::Fill { color: p.ear_color, rule: FillRule::NonZero },
    });
    cmds.push(DrawCmd {
        path: head.duplicate(),
        frame: head_frame_val,
        style: Style::Stroke { color: black(), stroke: stroke() },
    });
    cmds.push(DrawCmd {
        path: head,
        frame: head_frame_val,
        style: Style::Fill { color: p.head_color, rule: FillRule::NonZero },
    });
    cmds.push(DrawCmd {
        path: eyes,
        frame: head_frame_val,
        style: Style::Fill { color: black(), rule: FillRule::NonZero },
    });
    cmds.push(DrawCmd {
        path: nose,
        frame: head_frame_val,
        style: Style::Fill { color: black(), rule: FillRule::NonZero },
    });
    proof {
        assert(cmds_view(cmds@) =~= cmds_view(old(cmds)@) + head_cmds(*p));
    }
}

/// Composes the creature's full command list under the given parameters,
/// in draw order: tail, neck, legs, body, head group.
pub fn draw_cat(p: &CatParams) -> (cmds: Vec<DrawCmd>)
    requires
        params_wf(*p),
    ensures
        cmds_view(cmds@) == scene_cmds(*p),
{
    let tail = {
        let mut pb = PathBuilder::new();
        pb.move_to(TAIL_BASE_X, 0);
        match p.tail {
            TailShape::Line { dx, dy } => {
                pb.line_to(TAIL_BASE_X + dx, dy);
            },
            TailShape::Cubic { c1x, c1y, c2x, c2y, tox, toy } => {
                pb.cubic_to(
                    TAIL_BASE_X + c1x, c1y,
                    TAIL_BASE_X + c2x, c2y,
                    TAIL_BASE_X + tox, toy,
                );
            },
            TailShape::Quad { cx, cy, tox, toy } => {
                pb.quad_to(TAIL_BASE_X + cx, cy, TAIL_BASE_X + tox, toy);
            },
        }
        pb.finish()
    };
    proof {
        assert(tail@ =~= tail_path(p.tail));
    }

    let neck = {
        let mut pb = PathBuilder::new();
        let r = p.neck_half;
        pb.rect(-r, -r, 2 * r, 2 * r);
        pb.close();
        pb.finish()
    };
    proof {
        assert(neck@ =~= neck_path(p.neck_half as int));
    }

    let body = {
        let mut pb = PathBuilder::new();
        ellipse(&mut pb, 0, 0, p.body_rx, p.body_ry);
        pb.close();
        pb.finish()
    };
    proof {
        assert(body@ =~= body_path(p.body_rx as int, p.body_ry as int));
    }

    let leg = {
        let mut pb = PathBuilder::new();
        ellipse(&mut pb, 0, 0, p.leg_rx, p.leg_ry);
        pb.finish()
    };
    proof {
        assert(leg@ =~= leg_path(p.leg_rx as int, p.leg_ry as int));
    }

    let identity = Frame { rotation: 0, tx: 0, ty: 0 };

    let mut cmds: Vec<DrawCmd> = Vec::new();

    cmds.push(DrawCmd {
        path: tail,
        frame: identity,
        style: Style::Stroke {
            color: black(),
            stroke: StrokeStyle {
                width: TAIL_STROKE_WIDTH,
                cap: LineCap::Round,
                join: LineJoin::Miter,
                miter_limit: MITER_LIMIT,
            },
        },
    });

    let neck_frame_val = Frame { rotation: -30_000, tx: -45_000, ty: -19_000 };
    cmds.push(DrawCmd {
        path: neck.duplicate(),
        frame: neck_frame_val,
        style: Style::Stroke { color: black(), stroke: stroke() },
    });
    cmds.push(DrawCmd {
        path: neck,
        frame: neck_frame_val,
        style: Style::Fill { color: p.neck_color, rule: FillRule::NonZero },
    });

    let leg_frame_0 = Frame { rotation: 20_000, tx: -45_000, ty: 21_000 };
    cmds.push(DrawCmd {
        path: leg.duplicate(),
        frame: leg_frame_0,
        style: Style::Stroke { color: black(), stroke: stroke() },
    });
    cmds.push(DrawCmd {
        path: leg.duplicate(),
        frame: leg_frame_0,
        style: Style::Fill { color: p.leg_color_outer_left, rule: FillRule::NonZero },
    });

    let leg_frame_1 = Frame { rotation: 5_000, tx: -25_000, ty: 26_000 };
    cmds.push(DrawCmd {
        path: leg.duplicate(),
        frame: leg_frame_1,
        style: Style::Stroke { color: black(), stroke: stroke() },
    });
    cmds.push(DrawCmd {
        path: leg.duplicate(),
        frame: leg_frame_1,
        style: Style::Fill { color: p.leg_color_inner_left, rule: FillRule::NonZero },
    });

    let leg_frame_2 = Frame { rotation: -5_000, tx: 25_000, ty: 26_000 };
    cmds.push(DrawCmd {
        path: leg.duplicate(),
        frame: leg_frame_2,
        style: Style::Stroke { color: black(), stroke: stroke() },
    });
    cmds.push(DrawCmd {
        path: leg.duplicate(),
        frame: leg_frame_2,
        style: Style::Fill { color: p.leg_color_inner_right, rule: FillRule::NonZero },
    });

    let leg_frame_3 = Frame { rotation: -20_000, tx: 45_000, ty: 21_000 };
    cmds.push(DrawCmd {
        path: leg.duplicate(),
        frame: leg_frame_3,
        style: Style::Stroke { color: black(), stroke: stroke() },
    });
    cmds.push(DrawCmd {
        path: leg,
        frame: leg_frame_3,
        style: Style::Fill { color: p.leg_color_outer_right, rule: FillRule::NonZero },
    });

    cmds.push(DrawCmd {
        path: body.duplicate(),
        frame: identity,
        style: Style::Stroke { color: black(), stroke: stroke() },
    });
    cmds.push(DrawCmd {
        path: body,
        frame: identity,
        style: Style::Fill { color: p.body_color, rule: FillRule::NonZero },
    });

    proof {
        assert(cmds_view(cmds@) =~= base_cmds(*p));
    }

    draw_head(p, &mut cmds);

    proof {
        assert(cmds_view(cmds@) =~= scene_cmds(*p));
    }

    cmds
}

/// Composes one creature scene: the global pose with the command list.
pub fn cat_scene(p: &CatParams) -> (s: Scene)
    requires
        params_wf(*p),
    ensures
        s.pose == p.pose,
        cmds_view(s.cmds@) == scene_cmds(*p),
{
    Scene { pose: p.pose, cmds: draw_cat(p) }
}

/// Path-invariant law: every path the scene paints is well formed — each
/// of its sub-paths opens with a `MoveTo`.
pub proof fn lemma_scene_paths_wf(p: CatParams)
    ensures
        forall|i: int|
            0 <= i < scene_cmds(p).len() ==> crate::geom::path_wf(
                #[trigger] scene_cmds(p)[i].path,
            ),
{
    assert forall|i: int| 0 <= i < scene_cmds(p).len() implies crate::geom::path_wf(
        #[trigger] scene_cmds(p)[i].path,
    ) by {
        let s = scene_cmds(p)[i].path;
        assert(s.len() > 0 && s[0] is MoveTo) by {
            assert(ellipse_segments(0, 0, p.body_rx as int, p.body_ry as int)[0] is MoveTo);
            assert(ellipse_segments(0, 0, p.leg_rx as int, p.leg_ry as int)[0] is MoveTo);
            assert(ellipse_segments(0, 0, 25_000, 24_000)[0] is MoveTo);
            assert(ellipse_segments(9_000, -7_000, p.eye_r as int, p.eye_r as int)[0] is MoveTo);
        }
        crate::geom::lemma_starts_move_wf(s);
    }
}

/// Determinism law: the composed command sequence is a function of the
/// parameter set alone, so two renders issued from equal parameter sets
/// (equal seeds give equal draws) paint the same stroke and fill sequence.
/// Bit-identical pixel buffers then rest on the rasterizer repeating a
/// command sequence identically, which is its own contract, outside this
/// library.
pub proof fn lemma_scene_deterministic(p1: CatParams, p2: CatParams)
    requires
        p1 == p2,
    ensures
        scene_cmds(p1) == scene_cmds(p2),
{
}

/// Draw-order law: the scene paints the body strictly before every command
/// of the head group, so the head covers the body wherever they overlap
/// under the rasterizer's source-over, in-order painting. The body's two
/// commands sit at fixed places in the list and the six head-group
/// commands all come after them.
pub proof fn lemma_draw_order(p: CatParams)
    ensures
        scene_cmds(p).len() == 19,
        scene_cmds(p)[11] == (CmdView {
            path: body_path(p.body_rx as int, p.body_ry as int),
            frame: frame_identity(),
            style: black_stroke(),
        }),
        scene_cmds(p)[12] == (CmdView {
            path: body_path(p.body_rx as int, p.body_ry as int),
            frame: frame_identity(),
            style: fill_of(p.body_color),
        }),
        scene_cmds(p).subrange(13, 19) == head_cmds(p),
        forall|i: int| 13 <= i < 19 ==> #[trigger] scene_cmds(p)[i].frame == head_frame(),
{
    assert(scene_cmds(p).subrange(13, 19) =~= head_cmds(p));
    assert forall|i: int| 13 <= i < 19 implies #[trigger] scene_cmds(p)[i].frame
        == head_frame() by {
        assert(scene_cmds(p)[i] == head_cmds(p)[i - 13]);
    }
}

} // verus!
