//! Path-construction primitives.
//!
//! Coordinates are fixed-point: a canvas unit is a thousand milli-units,
//! so every coordinate computation is exact integer arithmetic.

use vstd::prelude::*;

verus! {

/// A point in milli-unit coordinates (canvas-space or shape-local).
#[derive(Clone, Copy, PartialEq, Eq, Structural, Debug)]
pub struct Point {
    pub x: i64,
    pub y: i64,
}

/// One path segment. A path is an ordered sequence of segments; each
/// sub-path starts with `MoveTo`, and `Close` connects the current point
/// back to the most recent `MoveTo`.
#[derive(Clone, Copy, PartialEq, Eq, Structural, Debug)]
pub enum Segment {
    MoveTo(Point),
    LineTo(Point),
    QuadTo(Point, Point),
    CubicTo(Point, Point, Point),
    Close,
}

/// An immutable path: an ordered sequence of segments, possibly holding
/// several disjoint sub-paths. An empty path is legal and renders nothing.
#[derive(Clone, PartialEq, Eq, Debug)]
pub struct Path {
    segments: Vec<Segment>,
}

impl View for Path {
    type V = Seq<Segment>;

    closed spec fn view(&self) -> Seq<Segment> {
        self.segments@
    }
}

/// Every segment other than a `MoveTo` must be preceded by some `MoveTo`
/// that opened its sub-path.
pub open spec fn path_wf(s: Seq<Segment>) -> bool {
    forall|i: int|
        0 <= i < s.len() && !(s[i] is MoveTo) ==> exists|j: int| 0 <= j < i && s[j] is MoveTo
}

/// A nonempty path that opens with a `MoveTo` is well formed.
pub proof fn lemma_starts_move_wf(s: Seq<Segment>)
    requires
        s.len() > 0,
        s[0] is MoveTo,
    ensures
        path_wf(s),
{
    assert forall|i: int| 0 <= i < s.len() && !(s[i] is MoveTo) implies exists|j: int|
        0 <= j < i && s[j] is MoveTo by {
        assert(0 <= 0 < i && s[0] is MoveTo);
    }
}

impl Path {
    /// The segments of the path, in order.
    pub fn segments(&self) -> (r: &Vec<Segment>)
        ensures
            r@ == self@,
    {
        &self.segments
    }

    /// A fresh path holding the same segments.
    pub fn duplicate(&self) -> (p: Path)
        ensures
            p@ == self@,
    {
        let mut segs: Vec<Segment> = Vec::new();
        let n = self.segments.len();
        for i in 0..n
            invariant
                n == self.segments.len(),
                segs@ =~= self.segments@.take(i as int),
        {
            segs.push(self.segments[i]);
        }
        proof {
            assert(segs@ =~= self.segments@);
        }
        Path { segments: segs }
    }
}

/// Accumulates straight and curved segments into one or more sub-paths.
/// No operation fails; the only side effect is the internal buffer growing.
pub struct PathBuilder {
    segments: Vec<Segment>,
}

impl View for PathBuilder {
    type V = Seq<Segment>;

    closed spec fn view(&self) -> Seq<Segment> {
        self.segments@
    }
}

impl PathBuilder {
    pub fn new() -> (pb: PathBuilder)
        ensures
            pb@ == Seq::<Segment>::empty(),
    {
        PathBuilder { segments: Vec::new() }
    }

    /// Starts a new sub-path at `(x, y)`, which becomes the current point.
    pub fn move_to(&mut self, x: i64, y: i64)
        ensures
            final(self)@ == old(self)@.push(Segment::MoveTo(Point { x, y })),
    {
        self.segments.push(Segment::MoveTo(Point { x, y }));
    }

    /// Appends a straight segment from the current point to `(x, y)`.
    pub fn line_to(&mut self, x: i64, y: i64)
        ensures
            final(self)@ == old(self)@.push(Segment::LineTo(Point { x, y })),
    {
        self.segments.push(Segment::LineTo(Point { x, y }));
    }

    /// Appends a quadratic Bezier segment with control point `(cx, cy)`
    /// ending at `(x, y)`.
    pub fn quad_to(&mut self, cx: i64, cy: i64, x: i64, y: i64)
        ensures
            final(self)@ == old(self)@.push(
                Segment::QuadTo(Point { x: cx, y: cy }, Point { x, y }),
            ),
    {
        self.segments.push(Segment::QuadTo(Point { x: cx, y: cy }, Point { x, y }));
    }

    /// Appends a cubic Bezier segment with control points `(c1x, c1y)` and
    /// `(c2x, c2y)`, ending at `(x, y)`.
    pub fn cubic_to(&mut self, c1x: i64, c1y: i64, c2x: i64, c2y: i64, x: i64, y: i64)
        ensures
            final(self)@ == old(self)@.push(
                Segment::CubicTo(
                    Point { x: c1x, y: c1y },
                    Point { x: c2x, y: c2y },
                    Point { x, y },
                ),
            ),
    {
        self.segments.push(
            Segment::CubicTo(Point { x: c1x, y: c1y }, Point { x: c2x, y: c2y }, Point { x, y }),
        );
    }

    /// Appends `Close`, connecting the current point back to the sub-path's
    /// start; the start point becomes the current point.
    pub fn close(&mut self)
        ensures
            final(self)@ == old(self)@.push(Segment::Close),
    {
        self.segments.push(Segment::Close);
    }

    /// The segments a `rect` call appends: a closed axis-aligned rectangle
    /// with corner `(x, y)`, width `w` and height `h`.
    pub open spec fn rect_segments(x: int, y: int, w: int, h: int) -> Seq<Segment> {
        seq![
            Segment::MoveTo(Point { x: x as i64, y: y as i64 }),
            Segment::LineTo(Point { x: (x + w) as i64, y: y as i64 }),
            Segment::LineTo(Point { x: (x + w) as i64, y: (y + h) as i64 }),
            Segment::LineTo(Point { x: x as i64, y: (y + h) as i64 }),
            Segment::Close,
        ]
    }

    /// Appends a closed rectangle with corner `(x, y)`, width `w`, height `h`.
    pub fn rect(&mut self, x: i64, y: i64, w: i64, h: i64)
        requires
            i64::MIN <= x + w <= i64::MAX,
            i64::MIN <= y + h <= i64::MAX,
        ensures
            final(self)@ == old(self)@ + PathBuilder::rect_segments(x as int, y as int, w as int, h as int),
    {
        self.move_to(x, y);
        self.line_to(x + w, y);
        self.line_to(x + w, y + h);
        self.line_to(x, y + h);
        self.close();
        proof {
            assert(self@ =~= old(self)@ + PathBuilder::rect_segments(
                x as int, y as int, w as int, h as int,
            ));
        }
    }

    /// Yields the finished, immutable path.
    pub fn finish(self) -> (p: Path)
        ensures
            p@ == self@,
    {
        Path { segments: self.segments }
    }
}

} // verus!
