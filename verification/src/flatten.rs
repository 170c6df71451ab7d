use vstd::prelude::*;
use crate::vec2::{v2_add, V2, Vec2};
use crate::curve::{CurveIter, PointV};

verus! {

/// The flat entry of a topology point at offset `r` within its triple:
/// absolute in-control, anchor, absolute out-control.
pub open spec fn flat_entry(pt: PointV, r: int) -> V2 {
    if r == 0 {
        v2_add(pt.p, pt.c_in)
    } else if r == 1 {
        pt.p
    } else {
        v2_add(pt.p, pt.c_out)
    }
}

/// The flattened control stream of a topology sequence: three vectors per
/// point, in order `(p + c_in, p, p + c_out)`, so downstream stages read one
/// uniform stream instead of picking fields out of points.
pub open spec fn flat_stream(topo: Seq<PointV>) -> Seq<V2> {
    Seq::new(topo.len() * 3, |j: int| flat_entry(topo[j / 3], j % 3))
}

impl CurveIter {
    /// Flatten the remaining topology points into a stream of absolute
    /// control vectors: `[{c,p,c}, {c,p,c}, ...]` becomes `[c,p,c, c,p,c, ...]`.
    pub fn spline(self) -> (r: FlatCurveIter)
        requires
            self.wf(),
            self.all_bounded(),
        ensures
            r.wf(),
            r.cursor() == 0,
            r.seq() == flat_stream(self.remaining()),
    {
        let ghost src = self.remaining();
        let ghost target = flat_stream(src);
        let mut it = self;
        let ghost c0 = it.cursor();
        let mut items: Vec<Vec2> = Vec::new();
        loop
            invariant
                it.wf(),
                it.all_bounded(),
                it.seq() == self.seq(),
                0 <= c0 <= it.cursor() <= it.seq().len(),
                src == it.seq().skip(c0),
                target == flat_stream(src),
                items@.len() == 3 * (it.cursor() - c0),
                forall|k: int| 0 <= k < items@.len() ==> (#[trigger] items@[k])@ == target[k],
            ensures
                it.cursor() == it.seq().len(),
                it.seq() == self.seq(),
                items@.len() == 3 * (it.cursor() - c0),
                forall|k: int| 0 <= k < items@.len() ==> (#[trigger] items@[k])@ == target[k],
            decreases it.seq().len() - it.cursor(),
        {
            let ghost j = it.cursor() - c0;
            match it.next() {
                None => {
                    break;
                },
                Some(pt) => {
                    proof {
                        assert(crate::curve::point_bounded(it.seq()[j + c0]));
                        assert(pt@ == src[j]);
                    }
                    items.push(pt.p.plus(pt.c_in));
                    items.push(pt.p);
                    items.push(pt.p.plus(pt.c_out));
                    proof {
                        assert(it.cursor() == j + c0 + 1);
                        assert(src.len() == it.seq().len() - c0);
                        assert(j < src.len());
                        assert(target.len() == 3 * src.len());
                        assert((3 * j) / 3 == j && (3 * j) % 3 == 0);
                        assert((3 * j + 1) / 3 == j && (3 * j + 1) % 3 == 1);
                        assert((3 * j + 2) / 3 == j && (3 * j + 2) % 3 == 2);
                        assert(target[3 * j] == flat_entry(src[j], 0));
                        assert(target[3 * j + 1] == flat_entry(src[j], 1));
                        assert(target[3 * j + 2] == flat_entry(src[j], 2));
                    }
                },
            }
        }
        proof {
            assert(items@.len() == target.len());
            assert forall|k: int| 0 <= k < items@.len() implies items@.map(
                |i: int, v: Vec2| v@,
            )[k] == target[k] by {
                assert(items@.map(|i: int, v: Vec2| v@)[k] == items@[k]@);
            }
            assert(items@.map(|i: int, v: Vec2| v@) =~= target);
        }
        FlatCurveIter { items, pos: 0 }
    }
}

/// Pull-based traversal of a flattened control stream.
pub struct FlatCurveIter {
    pub items: Vec<Vec2>,
    pub pos: usize,
}

impl FlatCurveIter {
    /// The full flat stream this iterator walks.
    pub open spec fn seq(&self) -> Seq<V2> {
        self.items@.map(|i: int, v: Vec2| v@)
    }

    /// How many elements have been consumed so far.
    pub open spec fn cursor(&self) -> int {
        self.pos as int
    }

    /// The elements not yet consumed.
    pub open spec fn remaining(&self) -> Seq<V2> {
        self.seq().skip(self.cursor())
    }

    pub open spec fn wf(&self) -> bool {
        self.cursor() <= self.seq().len()
    }

    /// The exact number of elements still to come.
    pub fn len(&self) -> (r: usize)
        requires
            self.wf(),
        ensures
            r == self.remaining().len(),
    {
        self.items.len() - self.pos
    }

    /// The next flat control vector.
    pub fn next(&mut self) -> (r: Option<Vec2>)
        requires
            old(self).wf(),
        ensures
            final(self).wf(),
            final(self).seq() == old(self).seq(),
            old(self).cursor() < old(self).seq().len() ==> {
                &&& r matches Some(v) && v@ == old(self).seq()[old(self).cursor()]
                &&& final(self).cursor() == old(self).cursor() + 1
            },
            old(self).cursor() >= old(self).seq().len() ==> {
                &&& r is None
                &&& final(self).cursor() == old(self).cursor()
            },
    {
        if self.pos < self.items.len() {
            let v = self.items[self.pos];
            self.pos = self.pos + 1;
            Some(v)
        } else {
            None
        }
    }
}

} // verus!
