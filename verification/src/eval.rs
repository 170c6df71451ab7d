use vstd::prelude::*;
use vstd::arithmetic::div_mod::lemma_mod_bound;
use crate::vec2::V2;
use crate::windows::{Window, WindowV};
use crate::sample::{descriptor_at, Sampled};

verus! {

/// A two-dimensional vector with wide integer components: the exact numerator
/// of an evaluated position (over denominator `res^3`) or velocity (over
/// denominator `res^2`).
#[derive(Clone, Copy, Debug, PartialEq, Eq, Structural)]
pub struct WideVec2 {
    pub x: i128,
    pub y: i128,
}

impl View for WideVec2 {
    type V = V2;

    open spec fn view(&self) -> V2 {
        V2 { x: self.x as int, y: self.y as int }
    }
}

/// Cubic coefficient of the segment polynomial in the power basis: the first
/// column of `G * M_B`, where `G` is the 2x4 control matrix `[p0 c1 c2 p3]`
/// and `M_B` is the cubic-Bezier-to-power-basis conversion matrix
/// ```text
/// M_B = [ -1  3 -3  1 ]
///       [  3 -6  3  0 ]
///       [ -3  3  0  0 ]
///       [  1  0  0  0 ]
/// ```
pub open spec fn coeff_a(w: WindowV) -> V2 {
    V2 {
        x: -w.p0.x + 3 * w.c1.x - 3 * w.c2.x + w.p3.x,
        y: -w.p0.y + 3 * w.c1.y - 3 * w.c2.y + w.p3.y,
    }
}

/// Quadratic coefficient of the segment polynomial (second column of `G * M_B`).
pub open spec fn coeff_b(w: WindowV) -> V2 {
    V2 {
        x: 3 * w.p0.x - 6 * w.c1.x + 3 * w.c2.x,
        y: 3 * w.p0.y - 6 * w.c1.y + 3 * w.c2.y,
    }
}

/// Linear coefficient of the segment polynomial (third column of `G * M_B`).
pub open spec fn coeff_c(w: WindowV) -> V2 {
    V2 { x: -3 * w.p0.x + 3 * w.c1.x, y: -3 * w.p0.y + 3 * w.c1.y }
}

/// Constant coefficient of the segment polynomial (fourth column of `G * M_B`).
pub open spec fn coeff_d(w: WindowV) -> V2 {
    V2 { x: w.p0.x, y: w.p0.y }
}

/// The exact position numerator of the cubic Bezier segment `w` at parameter
/// `t = k / r`, scaled by `r^3`: with `[a, b, c, d] = G * M_B` this is
/// `a*k^3 + b*k^2*r + c*k*r^2 + d*r^3`, that is `r^3 * (G * M_B * [t^3 t^2 t 1]^T)`.
pub open spec fn position_num(w: WindowV, k: int, r: int) -> V2 {
    V2 {
        x: coeff_a(w).x * (k * k * k) + coeff_b(w).x * ((k * k) * r) + coeff_c(w).x * (k * (r
            * r)) + coeff_d(w).x * ((r * r) * r),
        y: coeff_a(w).y * (k * k * k) + coeff_b(w).y * ((k * k) * r) + coeff_c(w).y * (k * (r
            * r)) + coeff_d(w).y * ((r * r) * r),
    }
}

/// The exact velocity numerator of the cubic Bezier segment `w` at parameter
/// `t = k / r`, scaled by `r^2`: the derivative of the cubic form with
/// respect to `t`, `3a*k^2 + 2b*k*r + c*r^2`, that is
/// `r^2 * (d/dt)(G * M_B * [t^3 t^2 t 1]^T)`. It is not normalized; a zero
/// vector (coincident control points) is a valid result that callers wanting
/// a direction must special-case instead of dividing by its length.
pub open spec fn velocity_num(w: WindowV, k: int, r: int) -> V2 {
    V2 {
        x: 3 * coeff_a(w).x * (k * k) + 2 * coeff_b(w).x * (k * r) + coeff_c(w).x * (r * r),
        y: 3 * coeff_a(w).y * (k * k) + 2 * coeff_b(w).y * (k * r) + coeff_c(w).y * (r * r),
    }
}

/// `|a| <= bound_a` and `|b| <= bound_b` bound the product `a * b` by
/// `bound_a * bound_b`.
proof fn lemma_mul_bound(a: int, b: int, bound_a: int, bound_b: int)
    by (nonlinear_arith)
    requires
        -bound_a <= a <= bound_a,
        -bound_b <= b <= bound_b,
        0 <= bound_a,
        0 <= bound_b,
    ensures
        -(bound_a * bound_b) <= a * b <= bound_a * bound_b,
{
}

/// Evaluate the exact position numerator of window `win` at parameter
/// `step / res`, scaled by `res^3`.
pub fn eval_position(win: &Window, step: u16, res: u16) -> (r: WideVec2)
    ensures
        r@ == position_num(win@, step as int, res as int),
{
    let kk: i128 = step as i128;
    let rr: i128 = res as i128;
    proof {
        lemma_mul_bound(kk as int, kk as int, 0x1_0000, 0x1_0000);
        lemma_mul_bound(rr as int, rr as int, 0x1_0000, 0x1_0000);
    }
    let k2: i128 = kk * kk;
    let r2: i128 = rr * rr;
    proof {
        lemma_mul_bound(k2 as int, kk as int, 0x1_0000_0000, 0x1_0000);
        lemma_mul_bound(k2 as int, rr as int, 0x1_0000_0000, 0x1_0000);
        lemma_mul_bound(kk as int, r2 as int, 0x1_0000, 0x1_0000_0000);
        lemma_mul_bound(r2 as int, rr as int, 0x1_0000_0000, 0x1_0000);
    }
    let k3: i128 = k2 * kk;
    let k2r: i128 = k2 * rr;
    let kr2: i128 = kk * r2;
    let r3: i128 = r2 * rr;
    let ax: i128 = -(win.p0.x as i128) + 3 * (win.c1.x as i128) - 3 * (win.c2.x as i128) + (
    win.p3.x as i128);
    let bx: i128 = 3 * (win.p0.x as i128) - 6 * (win.c1.x as i128) + 3 * (win.c2.x as i128);
    let cx: i128 = 3 * (win.c1.x as i128) - 3 * (win.p0.x as i128);
    let dx: i128 = win.p0.x as i128;
    let ay: i128 = -(win.p0.y as i128) + 3 * (win.c1.y as i128) - 3 * (win.c2.y as i128) + (
    win.p3.y as i128);
    let by: i128 = 3 * (win.p0.y as i128) - 6 * (win.c1.y as i128) + 3 * (win.c2.y as i128);
    let cy: i128 = 3 * (win.c1.y as i128) - 3 * (win.p0.y as i128);
    let dy: i128 = win.p0.y as i128;
    proof {
        let cb: int = 0x10_0000_0000_0000_0000;  // 2^68, above any coefficient magnitude
        let pb: int = 0x1_0000_0000_0000;  // 2^48, above any parameter power
        lemma_mul_bound(ax as int, k3 as int, cb, pb);
        lemma_mul_bound(bx as int, k2r as int, cb, pb);
        lemma_mul_bound(cx as int, kr2 as int, cb, pb);
        lemma_mul_bound(dx as int, r3 as int, cb, pb);
        lemma_mul_bound(ay as int, k3 as int, cb, pb);
        lemma_mul_bound(by as int, k2r as int, cb, pb);
        lemma_mul_bound(cy as int, kr2 as int, cb, pb);
        lemma_mul_bound(dy as int, r3 as int, cb, pb);
    }
    WideVec2 {
        x: ax * k3 + bx * k2r + cx * kr2 + dx * r3,
        y: ay * k3 + by * k2r + cy * kr2 + dy * r3,
    }
}

/// Evaluate the exact velocity numerator of window `win` at parameter
/// `step / res`, scaled by `res^2`.
pub fn eval_velocity(win: &Window, step: u16, res: u16) -> (r: WideVec2)
    ensures
        r@ == velocity_num(win@, step as int, res as int),
{
    let kk: i128 = step as i128;
    let rr: i128 = res as i128;
    proof {
        lemma_mul_bound(kk as int, kk as int, 0x1_0000, 0x1_0000);
        lemma_mul_bound(kk as int, rr as int, 0x1_0000, 0x1_0000);
        lemma_mul_bound(rr as int, rr as int, 0x1_0000, 0x1_0000);
    }
    let k2: i128 = kk * kk;
    let kr: i128 = kk * rr;
    let r2: i128 = rr * rr;
    let ax3: i128 = 3 * (-(win.p0.x as i128) + 3 * (win.c1.x as i128) - 3 * (win.c2.x as i128)
        + (win.p3.x as i128));
    let bx2: i128 = 2 * (3 * (win.p0.x as i128) - 6 * (win.c1.x as i128) + 3 * (win.c2.x
        as i128));
    let cx: i128 = 3 * (win.c1.x as i128) - 3 * (win.p0.x as i128);
    let ay3: i128 = 3 * (-(win.p0.y as i128) + 3 * (win.c1.y as i128) - 3 * (win.c2.y as i128)
        + (win.p3.y as i128));
    let by2: i128 = 2 * (3 * (win.p0.y as i128) - 6 * (win.c1.y as i128) + 3 * (win.c2.y
        as i128));
    let cy: i128 = 3 * (win.c1.y as i128) - 3 * (win.p0.y as i128);
    proof {
        let cb: int = 0x40_0000_0000_0000_0000;  // 2^70, above any scaled coefficient magnitude
        let pb: int = 0x1_0000_0000;  // 2^32, above any parameter power
        lemma_mul_bound(ax3 as int, k2 as int, cb, pb);
        lemma_mul_bound(bx2 as int, kr as int, cb, pb);
        lemma_mul_bound(cx as int, r2 as int, cb, pb);
        lemma_mul_bound(ay3 as int, k2 as int, cb, pb);
        lemma_mul_bound(by2 as int, kr as int, cb, pb);
        lemma_mul_bound(cy as int, r2 as int, cb, pb);
    }
    WideVec2 {
        x: ax3 * k2 + bx2 * kr + cx * r2,
        y: ay3 * k2 + by2 * kr + cy * r2,
    }
}

impl Sampled {
    /// Calculate the position alongside each sample.
    pub fn with_positions(self) -> (r: Positions)
        ensures
            r.iter == self,
    {
        Positions { iter: self }
    }

    /// Calculate the velocity alongside each sample.
    pub fn with_velocities(self) -> (r: Velocities)
        ensures
            r.iter == self,
    {
        Velocities { iter: self }
    }
}

/// A sample stream that evaluates the position of each sample, re-exposing
/// the descriptor and the buffered control window untouched.
pub struct Positions {
    pub iter: Sampled,
}

impl Positions {
    pub open spec fn wf(&self) -> bool {
        self.iter.wf()
    }

    /// How many samples have been consumed so far.
    pub open spec fn cursor(&self) -> int {
        self.iter.cursor()
    }

    /// The total number of samples the stage yields.
    pub open spec fn total(&self) -> int {
        self.iter.total()
    }

    /// The model of the windows being sampled.
    pub open spec fn wins(&self) -> Seq<WindowV> {
        self.iter.wins()
    }

    /// The exact number of samples still to come.
    pub fn len(&self) -> (r: usize)
        requires
            self.wf(),
        ensures
            r == self.total() - self.cursor(),
    {
        self.iter.len()
    }

    /// Re-exposed control matrix of the current segment.
    pub fn mat(&self) -> (r: Window)
        requires
            self.wf(),
            self.cursor() >= 1,
        ensures
            r@ == self.wins()[(self.cursor() - 1) / (self.iter.res as int)],
    {
        self.iter.mat()
    }

    /// The next sample: its descriptor unchanged, paired with the exact
    /// position numerator of its segment at its parameter (over denominator
    /// `res^3`).
    pub fn next(&mut self) -> (r: Option<((u32, u16), WideVec2)>)
        requires
            old(self).wf(),
        ensures
            final(self).wf(),
            final(self).wins() == old(self).wins(),
            final(self).iter.res == old(self).iter.res,
            old(self).cursor() < old(self).total() ==> {
                &&& r matches Some(item) && item.0 == descriptor_at(
                    old(self).iter.res as int,
                    old(self).cursor(),
                ) && item.1@ == position_num(
                    old(self).wins()[old(self).cursor() / (old(self).iter.res as int)],
                    old(self).cursor() % (old(self).iter.res as int),
                    old(self).iter.res as int,
                )
                &&& final(self).cursor() == old(self).cursor() + 1
            },
            old(self).cursor() >= old(self).total() ==> {
                &&& r is None
                &&& final(self).cursor() == old(self).cursor()
            },
    {
        let res = self.iter.res;
        let ghost j = self.iter.cursor();
        match self.iter.next() {
            None => None,
            Some(d) => {
                let w = self.iter.mat();
                proof {
                    lemma_mod_bound(j, res as int);
                }
                let p = eval_position(&w, d.1, res);
                Some((d, p))
            },
        }
    }
}

/// A sample stream that evaluates the (un-normalized) velocity of each
/// sample, re-exposing the descriptor and the buffered control window
/// untouched.
pub struct Velocities {
    pub iter: Sampled,
}

impl Velocities {
    pub open spec fn wf(&self) -> bool {
        self.iter.wf()
    }

    /// How many samples have been consumed so far.
    pub open spec fn cursor(&self) -> int {
        self.iter.cursor()
    }

    /// The total number of samples the stage yields.
    pub open spec fn total(&self) -> int {
        self.iter.total()
    }

    /// The model of the windows being sampled.
    pub open spec fn wins(&self) -> Seq<WindowV> {
        self.iter.wins()
    }

    /// The exact number of samples still to come.
    pub fn len(&self) -> (r: usize)
        requires
            self.wf(),
        ensures
            r == self.total() - self.cursor(),
    {
        self.iter.len()
    }

    /// Re-exposed control matrix of the current segment.
    pub fn mat(&self) -> (r: Window)
        requires
            self.wf(),
            self.cursor() >= 1,
        ensures
            r@ == self.wins()[(self.cursor() - 1) / (self.iter.res as int)],
    {
        self.iter.mat()
    }

    /// The next sample: its descriptor unchanged, paired with the exact
    /// velocity numerator of its segment at its parameter (over denominator
    /// `res^2`).
    pub fn next(&mut self) -> (r: Option<((u32, u16), WideVec2)>)
        requires
            old(self).wf(),
        ensures
            final(self).wf(),
            final(self).wins() == old(self).wins(),
            final(self).iter.res == old(self).iter.res,
            old(self).cursor() < old(self).total() ==> {
                &&& r matches Some(item) && item.0 == descriptor_at(
                    old(self).iter.res as int,
                    old(self).cursor(),
                ) && item.1@ == velocity_num(
                    old(self).wins()[old(self).cursor() / (old(self).iter.res as int)],
                    old(self).cursor() % (old(self).iter.res as int),
                    old(self).iter.res as int,
                )
                &&& final(self).cursor() == old(self).cursor() + 1
            },
            old(self).cursor() >= old(self).total() ==> {
                &&& r is None
                &&& final(self).cursor() == old(self).cursor()
            },
    {
        let res = self.iter.res;
        let ghost j = self.iter.cursor();
        match self.iter.next() {
            None => None,
            Some(d) => {
                let w = self.iter.mat();
                proof {
                    lemma_mod_bound(j, res as int);
                }
                let v = eval_velocity(&w, d.1, res);
                Some((d, v))
            },
        }
    }
}

impl Positions {
    /// Calculate the velocity alongside each position sample: the two
    /// evaluation stages compose over the same descriptor stream in either
    /// order.
    pub fn with_velocities(self) -> (r: PosVelIter)
        ensures
            r.iter == self.iter,
    {
        PosVelIter { iter: self.iter }
    }
}

impl Velocities {
    /// Calculate the position alongside each velocity sample: the two
    /// evaluation stages compose over the same descriptor stream in either
    /// order.
    pub fn with_positions(self) -> (r: PosVelIter)
        ensures
            r.iter == self.iter,
    {
        PosVelIter { iter: self.iter }
    }
}

impl crate::curve::Curve {
    /// Convenience chain: `iter()`, `spline()`, `spline_windows()`,
    /// `sampled(res)`, `with_positions()`, `with_velocities()`.
    pub fn pos_vel_iter(&self, res: u16) -> (r: PosVelIter)
        requires
            self.bounded(),
            self.points@.len() < usize::MAX,
            res >= 1,
            self.windows_model().len() <= u32::MAX,
            self.windows_model().len() * res <= usize::MAX,
        ensures
            r.wf(),
            r.iter.res == res,
            r.cursor() == 0,
            r.wins() == self.windows_model(),
    {
        self.sampled_iter(res).with_positions().with_velocities()
    }
}

/// A sample stream that evaluates both the position and the velocity of each
/// sample.
pub struct PosVelIter {
    pub iter: Sampled,
}

impl PosVelIter {
    pub open spec fn wf(&self) -> bool {
        self.iter.wf()
    }

    /// How many samples have been consumed so far.
    pub open spec fn cursor(&self) -> int {
        self.iter.cursor()
    }

    /// The total number of samples the stage yields.
    pub open spec fn total(&self) -> int {
        self.iter.total()
    }

    /// The model of the windows being sampled.
    pub open spec fn wins(&self) -> Seq<WindowV> {
        self.iter.wins()
    }

    /// The exact number of samples still to come.
    pub fn len(&self) -> (r: usize)
        requires
            self.wf(),
        ensures
            r == self.total() - self.cursor(),
    {
        self.iter.len()
    }

    /// The next sample as `(segment_index, step, position, velocity)`: the
    /// exact position numerator (over `res^3`) and velocity numerator (over
    /// `res^2`) of the sample's segment at parameter `step / res`.
    pub fn next(&mut self) -> (r: Option<(u32, u16, WideVec2, WideVec2)>)
        requires
            old(self).wf(),
        ensures
            final(self).wf(),
            final(self).wins() == old(self).wins(),
            final(self).iter.res == old(self).iter.res,
            old(self).cursor() < old(self).total() ==> {
                &&& r matches Some(item) && (item.0, item.1) == descriptor_at(
                    old(self).iter.res as int,
                    old(self).cursor(),
                ) && item.2@ == position_num(
                    old(self).wins()[old(self).cursor() / (old(self).iter.res as int)],
                    old(self).cursor() % (old(self).iter.res as int),
                    old(self).iter.res as int,
                ) && item.3@ == velocity_num(
                    old(self).wins()[old(self).cursor() / (old(self).iter.res as int)],
                    old(self).cursor() % (old(self).iter.res as int),
                    old(self).iter.res as int,
                )
                &&& final(self).cursor() == old(self).cursor() + 1
            },
            old(self).cursor() >= old(self).total() ==> {
                &&& r is None
                &&& final(self).cursor() == old(self).cursor()
            },
    {
        let res = self.iter.res;
        let ghost j = self.iter.cursor();
        match self.iter.next() {
            None => None,
            Some(d) => {
                let w = self.iter.mat();
                proof {
                    lemma_mod_bound(j, res as int);
                }
                let p = eval_position(&w, d.1, res);
                let v = eval_velocity(&w, d.1, res);
                Some((d.0, d.1, p, v))
            },
        }
    }
}

} // verus!
