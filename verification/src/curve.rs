use vstd::prelude::*;
use crate::vec2::{v2_bounded, V2, Vec2};

verus! {

/// Mathematical model of one curve point: an anchor and its two control
/// offsets, all as unbounded integer vectors.
pub ghost struct PointV {
    /// Entry control offset, relative to `p`.
    pub c_in: V2,
    /// Anchor position, absolute.
    pub p: V2,
    /// Exit control offset, relative to `p`.
    pub c_out: V2,
}

/// A single point of a [`Curve`]: an anchor the path passes through, plus the
/// two control offsets that shape the curvature entering and leaving it.
///
/// A zero offset means "no curvature influence" (a straight corner).
#[derive(Clone, Copy, Debug, PartialEq, Eq, Structural)]
pub struct CurvePoint {
    /// Entry control, relative to `p`.
    pub c_in: Vec2,
    /// Anchor position, absolute.
    pub p: Vec2,
    /// Exit control, relative to `p`.
    pub c_out: Vec2,
}

impl View for CurvePoint {
    type V = PointV;

    open spec fn view(&self) -> PointV {
        PointV { c_in: self.c_in@, p: self.p@, c_out: self.c_out@ }
    }
}

impl CurvePoint {
    pub fn new(c_in: Vec2, p: Vec2, c_out: Vec2) -> (r: CurvePoint)
        ensures
            r.c_in == c_in,
            r.p == p,
            r.c_out == c_out,
    {
        CurvePoint { c_in, p, c_out }
    }
}

/// All six coordinates of a model point lie within `COORD_LIMIT` in
/// magnitude.
pub open spec fn point_bounded(pt: PointV) -> bool {
    v2_bounded(pt.c_in) && v2_bounded(pt.p) && v2_bounded(pt.c_out)
}

/// Every point of a model sequence is coordinate-bounded.
pub open spec fn all_bounded(s: Seq<PointV>) -> bool {
    forall|i: int| 0 <= i < s.len() ==> point_bounded(#[trigger] s[i])
}

/// Appending the wrap point preserves coordinate-boundedness: the topology
/// sequence of a bounded point list is bounded.
pub proof fn lemma_topology_bounded(points: Seq<PointV>, is_closed: bool)
    requires
        all_bounded(points),
    ensures
        all_bounded(topology(points, is_closed)),
{
    let topo = topology(points, is_closed);
    assert forall|i: int| 0 <= i < topo.len() implies point_bounded(#[trigger] topo[i]) by {
        if i < points.len() {
            assert(topo[i] == points[i]);
        } else {
            assert(topo[i] == points[0]);
        }
    }
}

/// The topology sequence of a point list: the anchors in path order, with the
/// first anchor repeated at the end when the path is closed, so that the wrap
/// segment needs no special case downstream. A closed path with no points has
/// an empty topology (there is no point to repeat).
pub open spec fn topology(points: Seq<PointV>, is_closed: bool) -> Seq<PointV> {
    if is_closed && points.len() > 0 {
        points.push(points[0])
    } else {
        points
    }
}

/// A collection of cubic Bezier curve patches: the ordered control points and
/// whether the tail connects back to the tip.
#[derive(Clone, Debug)]
pub struct Curve {
    /// The control points, in path order.
    pub points: Vec<CurvePoint>,

    /// Whether the curve is a closed loop ("is the tail connected to the
    /// tip?"). The tip and tail do not need to be at the same position.
    pub is_closed: bool,
}

impl Curve {
    /// The model of the stored point list.
    pub open spec fn pts(&self) -> Seq<PointV> {
        self.points@.map(|i: int, pt: CurvePoint| pt@)
    }

    /// The model of the curve's topology sequence.
    pub open spec fn topo(&self) -> Seq<PointV> {
        topology(self.pts(), self.is_closed)
    }

    /// Every stored point is coordinate-bounded.
    pub open spec fn bounded(&self) -> bool {
        all_bounded(self.pts())
    }

    /// An empty, open curve.
    pub fn new() -> (r: Curve)
        ensures
            r.points@.len() == 0,
            !r.is_closed,
    {
        Curve { points: Vec::new(), is_closed: false }
    }

    /// A closed curve matching the shape and position of an axis-aligned
    /// rectangle: four corner anchors with zero control offsets.
    pub fn from_rect(x: i64, y: i64, width: i64, height: i64) -> (r: Curve)
        requires
            i64::MIN <= x + width <= i64::MAX,
            i64::MIN <= y + height <= i64::MAX,
        ensures
            r.is_closed,
            r.points@.len() == 4,
            r.points@[0].p.x == x && r.points@[0].p.y == y,
            r.points@[1].p.x == x + width && r.points@[1].p.y == y,
            r.points@[2].p.x == x + width && r.points@[2].p.y == y + height,
            r.points@[3].p.x == x && r.points@[3].p.y == y + height,
            forall|i: int| 0 <= i < 4 ==> (#[trigger] r.points@[i]).c_in == (Vec2 { x: 0i64, y: 0i64 }),
            forall|i: int| 0 <= i < 4 ==> (#[trigger] r.points@[i]).c_out == (Vec2 { x: 0i64, y: 0i64 }),
    {
        let left = x;
        let top = y;
        let right = x + width;
        let bottom = y + height;
        let z = Vec2::zero();
        let mut points: Vec<CurvePoint> = Vec::new();
        points.push(CurvePoint { c_in: z, p: Vec2::new(left, top), c_out: z });
        points.push(CurvePoint { c_in: z, p: Vec2::new(right, top), c_out: z });
        points.push(CurvePoint { c_in: z, p: Vec2::new(right, bottom), c_out: z });
        points.push(CurvePoint { c_in: z, p: Vec2::new(left, bottom), c_out: z });
        Curve { points, is_closed: true }
    }

    /// Iterate over the curve's topology sequence: the stored points in
    /// order, with the first point emitted a second time after the last one
    /// if the curve is closed.
    pub fn iter(&self) -> (r: CurveIter)
        requires
            self.points@.len() < usize::MAX,
        ensures
            r.wf(),
            r.seq() == self.topo(),
            r.cursor() == 0,
    {
        CurveIter { points: self.points.clone(), is_closed: self.is_closed, pos: 0 }
    }
}

/// Pull-based traversal of a curve's topology sequence.
pub struct CurveIter {
    pub points: Vec<CurvePoint>,
    pub is_closed: bool,
    pub pos: usize,
}

impl CurveIter {
    /// The full topology sequence this iterator walks.
    pub open spec fn seq(&self) -> Seq<PointV> {
        topology(self.points@.map(|i: int, pt: CurvePoint| pt@), self.is_closed)
    }

    /// How many elements have been consumed so far.
    pub open spec fn cursor(&self) -> int {
        self.pos as int
    }

    /// The elements not yet consumed.
    pub open spec fn remaining(&self) -> Seq<PointV> {
        self.seq().skip(self.cursor())
    }

    pub open spec fn wf(&self) -> bool {
        &&& self.cursor() <= self.seq().len()
        &&& self.seq().len() <= usize::MAX
    }

    /// Every point the iterator can yield is coordinate-bounded.
    pub open spec fn all_bounded(&self) -> bool {
        all_bounded(self.seq())
    }

    /// The exact number of elements still to come (the topology length minus
    /// what was already consumed), knowable without consuming the sequence.
    pub fn len(&self) -> (r: usize)
        requires
            self.wf(),
        ensures
            r == self.remaining().len(),
    {
        let total = if self.is_closed && self.points.len() > 0 {
            self.points.len() + 1
        } else {
            self.points.len()
        };
        total - self.pos
    }

    /// The next topology element: the stored points in order, then, for a
    /// closed curve, the first point once more.
    pub fn next(&mut self) -> (r: Option<CurvePoint>)
        requires
            old(self).wf(),
        ensures
            final(self).wf(),
            final(self).seq() == old(self).seq(),
            final(self).all_bounded() == old(self).all_bounded(),
            old(self).cursor() < old(self).seq().len() ==> {
                &&& r matches Some(pt) && pt@ == old(self).seq()[old(self).cursor()]
                &&& final(self).cursor() == old(self).cursor() + 1
            },
            old(self).cursor() >= old(self).seq().len() ==> {
                &&& r is None
                &&& final(self).cursor() == old(self).cursor()
            },
    {
        if self.pos < self.points.len() {
            let pt = self.points[self.pos];
            self.pos = self.pos + 1;
            Some(pt)
        } else if self.is_closed && self.points.len() > 0 && self.pos == self.points.len() {
            let pt = self.points[0];
            self.pos = self.pos + 1;
            Some(pt)
        } else {
            None
        }
    }
}

} // verus!
