use vstd::prelude::*;
use vstd::arithmetic::div_mod::{lemma_mod_bound, lemma_multiply_divide_lt};
use vstd::arithmetic::mul::lemma_mul_is_commutative;
use crate::curve::{lemma_topology_bounded, Curve};
use crate::flatten::flat_stream;
use crate::windows::{window_stream, SplineWindows, Window, WindowV};

verus! {

impl Curve {
    /// The model of the full window sequence the curve yields: the windows of
    /// the flattened topology stream.
    pub open spec fn windows_model(&self) -> Seq<WindowV> {
        window_stream(flat_stream(self.topo()))
    }

    /// Convenience chain: `iter()`, `spline()`, `spline_windows()`,
    /// `sampled(res)`.
    pub fn sampled_iter(&self, res: u16) -> (r: Sampled)
        requires
            self.bounded(),
            self.points@.len() < usize::MAX,
            res >= 1,
            self.windows_model().len() <= u32::MAX,
            self.windows_model().len() * res <= usize::MAX,
        ensures
            r.wf(),
            r.res == res,
            r.cursor() == 0,
            r.wins() == self.windows_model(),
    {
        let it = self.iter();
        let ghost t0 = it.remaining();
        proof {
            lemma_topology_bounded(self.pts(), self.is_closed);
            assert(t0 =~= self.topo());
        }
        let fl = it.spline();
        let ghost f0 = fl.remaining();
        proof {
            assert(f0 =~= fl.seq());
        }
        let ws = fl.spline_windows();
        let ghost w0 = ws.remaining();
        proof {
            assert(w0 =~= ws.seq());
            assert(w0 == self.windows_model());
        }
        ws.sampled(res)
    }
}

/// The sample descriptor at stream position `j` for resolution `res`:
/// segment index `j / res` and parameter step `j % res`. The local parameter
/// of the descriptor is the rational `step / res`, so every segment is
/// sampled at `t = 0/res, 1/res, ..., (res-1)/res`.
pub open spec fn descriptor_at(res: int, j: int) -> (u32, u16) {
    (((j / res) as u32), ((j % res) as u16))
}

/// The full descriptor stream for `count` windows at resolution `res`:
/// `count * res` descriptors, `res` per segment, segment indices increasing
/// from `0` to `count - 1`.
pub open spec fn descriptor_stream(count: int, res: int) -> Seq<(u32, u16)> {
    Seq::new((count * res) as nat, |j: int| descriptor_at(res, j))
}

impl SplineWindows {
    /// Subdivide the remaining windows into `res` evenly separated parameter
    /// steps per segment, each tagged with its segment index:
    /// `[[p1,c2,c3,p4], ...]` becomes `[(0, 0), (0, 1), ..., (n-1, res-1)]`
    /// with local parameter `t = step / res`.
    pub fn sampled(self, res: u16) -> (r: Sampled)
        requires
            self.wf(),
            res >= 1,
            self.remaining().len() <= u32::MAX,
            self.remaining().len() * res <= usize::MAX,
        ensures
            r.wf(),
            r.res == res,
            r.cursor() == 0,
            r.wins() == self.remaining(),
    {
        let ghost src = self.remaining();
        let mut kept: Vec<Window> = Vec::new();
        let mut k = self.pos;
        while k < self.items.len()
            invariant
                self.cursor() <= k <= self.items@.len(),
                src == self.remaining(),
                kept@.len() == k - self.cursor(),
                forall|idx: int| 0 <= idx < kept@.len() ==> #[trigger] kept@[idx]
                    == self.items@[self.cursor() + idx],
            decreases self.items@.len() - k,
        {
            kept.push(self.items[k]);
            k = k + 1;
        }
        proof {
            let mapped = kept@.map(|i: int, w: Window| w@);
            assert(src.len() == kept@.len());
            assert forall|idx: int| 0 <= idx < mapped.len() implies mapped[idx]
                == src[idx] by {
                assert(kept@[idx] == self.items@[self.cursor() + idx]);
                assert(src[idx] == self.seq()[self.cursor() + idx]);
            }
            assert(mapped =~= src);
        }
        Sampled { windows: kept, res, pos: 0 }
    }
}

/// Pull-based producer of sample descriptors, buffering the control window of
/// the segment currently being subdivided.
pub struct Sampled {
    pub windows: Vec<Window>,
    pub res: u16,
    pub pos: usize,
}

impl Sampled {
    /// The model of the windows this stage subdivides.
    pub open spec fn wins(&self) -> Seq<WindowV> {
        self.windows@.map(|i: int, w: Window| w@)
    }

    /// The total number of descriptors the stage yields.
    pub open spec fn total(&self) -> int {
        self.wins().len() * self.res
    }

    /// How many descriptors have been consumed so far.
    pub open spec fn cursor(&self) -> int {
        self.pos as int
    }

    /// The full descriptor stream this iterator walks.
    pub open spec fn stream(&self) -> Seq<(u32, u16)> {
        descriptor_stream(self.wins().len() as int, self.res as int)
    }

    /// The descriptors not yet consumed.
    pub open spec fn remaining(&self) -> Seq<(u32, u16)> {
        self.stream().skip(self.cursor())
    }

    pub open spec fn wf(&self) -> bool {
        &&& self.res >= 1
        &&& 0 <= self.cursor() <= self.total()
        &&& self.wins().len() <= u32::MAX
        &&& self.total() <= usize::MAX
    }

    /// The exact number of descriptors still to come.
    pub fn len(&self) -> (r: usize)
        requires
            self.wf(),
        ensures
            r == self.total() - self.cursor(),
            r == self.remaining().len(),
    {
        self.windows.len() * (self.res as usize) - self.pos
    }

    /// The next sample descriptor `(segment_index, step)`: the segment index
    /// increments once per window starting at `0`, and the step counts
    /// `0, 1, ..., res - 1` within each segment.
    pub fn next(&mut self) -> (r: Option<(u32, u16)>)
        requires
            old(self).wf(),
        ensures
            final(self).wf(),
            final(self).wins() == old(self).wins(),
            final(self).res == old(self).res,
            old(self).cursor() < old(self).total() ==> {
                &&& r == Some(descriptor_at(old(self).res as int, old(self).cursor()))
                &&& final(self).cursor() == old(self).cursor() + 1
            },
            old(self).cursor() >= old(self).total() ==> {
                &&& r is None
                &&& final(self).cursor() == old(self).cursor()
            },
    {
        let total = self.windows.len() * (self.res as usize);
        if self.pos < total {
            let res_w = self.res as usize;
            let seg = self.pos / res_w;
            let step = self.pos % res_w;
            proof {
                lemma_mul_is_commutative(self.wins().len() as int, self.res as int);
                lemma_multiply_divide_lt(
                    self.cursor(),
                    self.res as int,
                    self.wins().len() as int,
                );
                lemma_mod_bound(self.cursor(), self.res as int);
            }
            self.pos = self.pos + 1;
            Some((seg as u32, step as u16))
        } else {
            None
        }
    }

    /// The buffered 2x4 control matrix of the current segment: the window
    /// whose descriptor was most recently yielded by `next`, exposed so that
    /// evaluation stages reuse it instead of re-deriving it per sample.
    pub fn mat(&self) -> (r: Window)
        requires
            self.wf(),
            self.cursor() >= 1,
        ensures
            r@ == self.wins()[(self.cursor() - 1) / (self.res as int)],
    {
        proof {
            lemma_mul_is_commutative(self.wins().len() as int, self.res as int);
            lemma_multiply_divide_lt(
                self.cursor() - 1,
                self.res as int,
                self.wins().len() as int,
            );
        }
        self.windows[(self.pos - 1) / (self.res as usize)]
    }
}

} // verus!
