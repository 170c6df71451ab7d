use vstd::prelude::*;
use crate::vec2::{V2, Vec2};
use crate::flatten::FlatCurveIter;

verus! {

/// Mathematical model of one Bezier segment window: the two anchors it spans
/// and the two absolute control positions between them.
pub ghost struct WindowV {
    /// First anchor.
    pub p0: V2,
    /// Absolute exit control of the first anchor.
    pub c1: V2,
    /// Absolute entry control of the second anchor.
    pub c2: V2,
    /// Second anchor.
    pub p3: V2,
}

/// One cubic Bezier segment window: exactly four control vectors
/// `[p0, c1, c2, p3]`, where `p0` and `p3` are anchor positions and `c1` and
/// `c2` are absolute control positions.
#[derive(Clone, Copy, Debug, PartialEq, Eq, Structural)]
pub struct Window {
    pub p0: Vec2,
    pub c1: Vec2,
    pub c2: Vec2,
    pub p3: Vec2,
}

impl View for Window {
    type V = WindowV;

    open spec fn view(&self) -> WindowV {
        WindowV { p0: self.p0@, c1: self.c1@, c2: self.c2@, p3: self.p3@ }
    }
}

/// How many windows a flat stream of the given length yields.
///
/// The first entry of the stream (the in-control of the first point) is
/// discarded, one entry seeds the first window boundary, and every further
/// window consumes exactly three entries. For a full triple stream of `3 * n`
/// entries this is `n - 1` (and `0` for fewer than two points).
pub open spec fn window_count(n: int) -> int {
    if n >= 5 {
        (n - 2) / 3
    } else {
        0
    }
}

/// The window at index `i` of a flat stream: `[prev_anchor, prev_out_abs,
/// next_in_abs, next_anchor]`, drawn from four consecutive stream entries.
pub open spec fn window_at(flat: Seq<V2>, i: int) -> WindowV {
    WindowV {
        p0: flat[3 * i + 1],
        c1: flat[3 * i + 2],
        c2: flat[3 * i + 3],
        p3: flat[3 * i + 4],
    }
}

/// The sequence of overlapping Bezier segment windows of a flat stream.
pub open spec fn window_stream(flat: Seq<V2>) -> Seq<WindowV> {
    Seq::new(window_count(flat.len() as int) as nat, |i: int| window_at(flat, i))
}

impl FlatCurveIter {
    /// Group the remaining flat control stream into overlapping cubic Bezier
    /// windows: `[c,p,c, c,p,c, ...]` becomes `[[p1,c2,c3,p4], [p4,c5,c6,p7], ...]`.
    pub fn spline_windows(self) -> (r: SplineWindows)
        requires
            self.wf(),
        ensures
            r.wf(),
            r.cursor() == 0,
            r.seq() == window_stream(self.remaining()),
    {
        let ghost src = self.remaining();
        let ghost target = window_stream(src);
        let base = self.pos;
        let rem = self.items.len() - self.pos;
        let count = if rem >= 5 {
            (rem - 2) / 3
        } else {
            0
        };
        proof {
            assert(src.len() == rem);
            assert(count == window_count(rem as int));
            assert(3 * count <= rem - 2 || count == 0);
        }
        let mut items: Vec<Window> = Vec::new();
        let mut i: usize = 0;
        while i < count
            invariant
                0 <= i <= count,
                base + rem == self.items.len(),
                base == self.cursor(),
                src == self.remaining(),
                target == window_stream(src),
                src.len() == rem,
                count == window_count(rem as int),
                count == 0 || 3 * count <= rem - 2,
                items@.len() == i,
                forall|k: int| 0 <= k < i ==> (#[trigger] items@[k])@ == target[k],
            decreases count - i,
        {
            let w = Window {
                p0: self.items[base + 3 * i + 1],
                c1: self.items[base + 3 * i + 2],
                c2: self.items[base + 3 * i + 3],
                p3: self.items[base + 3 * i + 4],
            };
            items.push(w);
            proof {
                assert(src[3 * i + 1] == self.seq()[base + 3 * i + 1]);
                assert(src[3 * i + 2] == self.seq()[base + 3 * i + 2]);
                assert(src[3 * i + 3] == self.seq()[base + 3 * i + 3]);
                assert(src[3 * i + 4] == self.seq()[base + 3 * i + 4]);
                assert(target[i as int] == window_at(src, i as int));
                assert(items@[i as int]@ == target[i as int]);
            }
            i = i + 1;
        }
        SplineWindows { items, pos: 0 }
    }
}

/// Pull-based traversal of the Bezier segment windows of a curve.
pub struct SplineWindows {
    pub items: Vec<Window>,
    pub pos: usize,
}

impl SplineWindows {
    /// The full window sequence this iterator walks.
    pub open spec fn seq(&self) -> Seq<WindowV> {
        self.items@.map(|i: int, w: Window| w@)
    }

    /// How many windows have been consumed so far.
    pub open spec fn cursor(&self) -> int {
        self.pos as int
    }

    /// The windows not yet consumed.
    pub open spec fn remaining(&self) -> Seq<WindowV> {
        self.seq().skip(self.cursor())
    }

    pub open spec fn wf(&self) -> bool {
        self.cursor() <= self.seq().len()
    }

    /// The exact number of windows still to come.
    pub fn len(&self) -> (r: usize)
        requires
            self.wf(),
        ensures
            r == self.remaining().len(),
    {
        self.items.len() - self.pos
    }

    /// The next Bezier segment window.
    pub fn next(&mut self) -> (r: Option<Window>)
        requires
            old(self).wf(),
        ensures
            final(self).wf(),
            final(self).seq() == old(self).seq(),
            old(self).cursor() < old(self).seq().len() ==> {
                &&& r matches Some(w) && w@ == old(self).seq()[old(self).cursor()]
                &&& final(self).cursor() == old(self).cursor() + 1
            },
            old(self).cursor() >= old(self).seq().len() ==> {
                &&& r is None
                &&& final(self).cursor() == old(self).cursor()
            },
    {
        if self.pos < self.items.len() {
            let w = self.items[self.pos];
            self.pos = self.pos + 1;
            Some(w)
        } else {
            None
        }
    }
}

} // verus!
