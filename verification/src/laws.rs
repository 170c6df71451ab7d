use vstd::prelude::*;
use vstd::arithmetic::div_mod::{
    lemma_fundamental_div_mod_converse_div, lemma_mod_bound, lemma_multiply_divide_lt,
};
use crate::vec2::{v2_scale, V2};
use crate::curve::{topology, Curve, PointV};
use crate::flatten::flat_stream;
use crate::windows::{window_at, window_count, window_stream, WindowV};
use crate::sample::{descriptor_at, descriptor_stream};
use crate::eval::{coeff_a, coeff_b, coeff_c, position_num, velocity_num};

verus! {

/// An open curve's topology has exactly as many elements as the curve has
/// anchors; a closed curve's has one more, the last equal to the first; a
/// closed curve with no anchors has an empty topology.
pub proof fn lemma_topology_count(points: Seq<PointV>, is_closed: bool)
    ensures
        !is_closed ==> topology(points, is_closed) == points,
        is_closed && points.len() == 0 ==> topology(points, is_closed).len() == 0,
        is_closed && points.len() > 0 ==> topology(points, is_closed).len() == points.len()
            + 1,
        is_closed && points.len() > 0 ==> topology(points, is_closed).last() == topology(
            points,
            is_closed,
        ).first(),
{
}

/// The flattened stream is exactly three times as long as the topology
/// sequence it was made from.
pub proof fn lemma_flat_stream_len(topo: Seq<PointV>)
    ensures
        flat_stream(topo).len() == 3 * topo.len(),
{
}

/// A curve yields one window less than its topology length (and none when
/// the topology has fewer than two elements): an open curve with `n >= 2`
/// anchors yields `n - 1` windows, a closed curve with `n >= 1` anchors
/// yields `n`, and anything smaller yields none.
pub proof fn lemma_window_count(c: Curve)
    ensures
        c.topo().len() < 2 ==> c.windows_model().len() == 0,
        c.topo().len() >= 2 ==> c.windows_model().len() == c.topo().len() - 1,
        !c.is_closed && c.pts().len() >= 2 ==> c.windows_model().len() == c.pts().len() - 1,
        !c.is_closed && c.pts().len() < 2 ==> c.windows_model().len() == 0,
        c.is_closed && c.pts().len() >= 1 ==> c.windows_model().len() == c.pts().len(),
        c.is_closed && c.pts().len() == 0 ==> c.windows_model().len() == 0,
{
    let n = c.topo().len() as int;
    assert(flat_stream(c.topo()).len() == 3 * n);
    if n >= 2 {
        lemma_fundamental_div_mod_converse_div(3 * n - 2, 3, n - 1, 1);
    }
}

/// Sampling `count` windows at resolution `res` yields exactly `count * res`
/// descriptors; the segment index of descriptor `j` is `j / res`, it is
/// non-decreasing, it increments by exactly one at every multiple of `res`,
/// and it covers `0 .. count`.
pub proof fn lemma_descriptor_stream(count: int, res: int)
    requires
        0 <= count <= u32::MAX,
        1 <= res <= u16::MAX,
    ensures
        descriptor_stream(count, res).len() == count * res,
        forall|j: int| 0 <= j < count * res ==> (#[trigger] descriptor_stream(count, res)[j])
            == descriptor_at(res, j),
        forall|j: int| 0 <= j < count * res ==> (#[trigger] descriptor_stream(count, res)[j]).0
            == j / res && descriptor_stream(count, res)[j].1 == j % res,
        forall|j: int| 0 <= j < count * res ==> 0 <= (#[trigger] descriptor_stream(
            count,
            res,
        )[j]).0 < count,
        forall|j: int| 0 <= j && j + 1 < count * res && (j + 1) % res != 0 ==> (
        #[trigger] descriptor_stream(count, res)[j + 1]).0 == descriptor_stream(count, res)[j].0,
        forall|j: int| 0 <= j && j + 1 < count * res && (j + 1) % res == 0 ==> (
        #[trigger] descriptor_stream(count, res)[j + 1]).0 == descriptor_stream(
            count,
            res,
        )[j].0 + 1,
        forall|s: int| 0 <= s < count ==> (#[trigger] descriptor_stream(count, res)[s * res]).0
            == s,
{
    let stream = descriptor_stream(count, res);
    assert forall|j: int| 0 <= j < count * res implies (#[trigger] stream[j]).0 == j / res
        && stream[j].1 == j % res && 0 <= stream[j].0 < count by {
        lemma_multiply_divide_lt(j, res, count);
        lemma_mod_bound(j, res);
        assert(res * count == count * res) by (nonlinear_arith);
    }
    assert forall|j: int|
        0 <= j && j + 1 < count * res implies ((j + 1) % res != 0 ==> (#[trigger] stream[j
        + 1]).0 == stream[j].0) && ((j + 1) % res == 0 ==> (#[trigger] stream[j + 1]).0
        == stream[j].0 + 1) by {
        lemma_multiply_divide_lt(j, res, count);
        lemma_multiply_divide_lt(j + 1, res, count);
        lemma_mod_bound(j, res);
        lemma_mod_bound(j + 1, res);
        assert(res * count == count * res) by (nonlinear_arith);
        let q = j / res;
        let rem = j % res;
        assert(j == res * q + rem) by {
            vstd::arithmetic::div_mod::lemma_fundamental_div_mod(j, res);
        }
        if rem + 1 < res {
            lemma_fundamental_div_mod_converse_div(j + 1, res, q, rem + 1);
            vstd::arithmetic::div_mod::lemma_fundamental_div_mod_converse_mod(
                j + 1,
                res,
                q,
                rem + 1,
            );
        } else {
            assert(res * (q + 1) == res * q + res) by (nonlinear_arith);
            assert(j + 1 == res * (q + 1) + 0);
            lemma_fundamental_div_mod_converse_div(j + 1, res, q + 1, 0);
            vstd::arithmetic::div_mod::lemma_fundamental_div_mod_converse_mod(
                j + 1,
                res,
                q + 1,
                0,
            );
        }
    }
    assert forall|s: int| 0 <= s < count implies (#[trigger] stream[s * res]).0 == s by {
        assert(0 <= s * res && s * res + res <= count * res) by (nonlinear_arith)
            requires
                0 <= s < count,
                1 <= res,
        ;
        lemma_fundamental_div_mod_converse_div(s * res, res, s, 0);
        lemma_mod_bound(s * res, res);
    }
}

/// Sampling a segment at `t = 0` reproduces the window's first anchor
/// exactly (scaled by the denominator `r^3`), and the theoretical sample at
/// `t = 1` (which the `[0, 1)` descriptor stream never emits) is exactly the
/// window's second anchor.
pub proof fn lemma_sample_endpoints(w: WindowV, r: int)
    requires
        1 <= r,
    ensures
        position_num(w, 0, r) == v2_scale(w.p0, (r * r) * r),
        position_num(w, r, r) == v2_scale(w.p3, (r * r) * r),
{
    assert(position_num(w, 0, r).x == w.p0.x * ((r * r) * r)) by (nonlinear_arith);
    assert(position_num(w, 0, r).y == w.p0.y * ((r * r) * r)) by (nonlinear_arith);
    assert(position_num(w, r, r).x == w.p3.x * ((r * r) * r)) by (nonlinear_arith);
    assert(position_num(w, r, r).y == w.p3.y * ((r * r) * r)) by (nonlinear_arith);
}

/// Window `i` of a topology sequence is built from consecutive points
/// exactly: `[prev_anchor, prev_anchor + out_offset, next_anchor + in_offset,
/// next_anchor]`.
pub proof fn lemma_window_anchors(topo: Seq<PointV>, i: int)
    requires
        0 <= i < window_stream(flat_stream(topo)).len(),
    ensures
        i + 1 < topo.len(),
        window_stream(flat_stream(topo))[i].p0 == topo[i].p,
        window_stream(flat_stream(topo))[i].c1 == crate::vec2::v2_add(topo[i].p, topo[i].c_out),
        window_stream(flat_stream(topo))[i].c2 == crate::vec2::v2_add(
            topo[i + 1].p,
            topo[i + 1].c_in,
        ),
        window_stream(flat_stream(topo))[i].p3 == topo[i + 1].p,
{
    let flat = flat_stream(topo);
    let n = topo.len() as int;
    assert(flat.len() == 3 * n);
    assert(3 * n >= 5);
    lemma_fundamental_div_mod_converse_div(3 * n - 2, 3, n - 1, 1);
    assert(window_count(3 * n) == n - 1);
    lemma_fundamental_div_mod_converse_div(3 * i + 1, 3, i, 1);
    lemma_fundamental_div_mod_converse_div(3 * i + 2, 3, i, 2);
    lemma_fundamental_div_mod_converse_div(3 * i + 3, 3, i + 1, 0);
    lemma_fundamental_div_mod_converse_div(3 * i + 4, 3, i + 1, 1);
    vstd::arithmetic::div_mod::lemma_fundamental_div_mod_converse_mod(3 * i + 1, 3, i, 1);
    vstd::arithmetic::div_mod::lemma_fundamental_div_mod_converse_mod(3 * i + 2, 3, i, 2);
    vstd::arithmetic::div_mod::lemma_fundamental_div_mod_converse_mod(3 * i + 3, 3, i + 1, 0);
    vstd::arithmetic::div_mod::lemma_fundamental_div_mod_converse_mod(3 * i + 4, 3, i + 1, 1);
    assert(window_stream(flat)[i] == window_at(flat, i));
}

/// Round trip from anchors through the whole pipeline: sampling segment `i`
/// of a topology sequence at `t = 0` reproduces anchor `i` exactly, and the
/// theoretical sample at `t = 1` reproduces anchor `i + 1` (both scaled by
/// the denominator `r^3`).
pub proof fn lemma_anchor_roundtrip(topo: Seq<PointV>, i: int, r: int)
    requires
        0 <= i < window_stream(flat_stream(topo)).len(),
        1 <= r,
    ensures
        position_num(window_stream(flat_stream(topo))[i], 0, r) == v2_scale(
            topo[i].p,
            (r * r) * r,
        ),
        position_num(window_stream(flat_stream(topo))[i], r, r) == v2_scale(
            topo[i + 1].p,
            (r * r) * r,
        ),
{
    lemma_window_anchors(topo, i);
    lemma_sample_endpoints(window_stream(flat_stream(topo))[i], r);
}

/// Consecutive windows of one curve share their boundary anchor: the first
/// anchor of window `i + 1` is the second anchor of window `i`.
pub proof fn lemma_windows_share_anchors(topo: Seq<PointV>, i: int)
    requires
        0 <= i,
        i + 1 < window_stream(flat_stream(topo)).len(),
    ensures
        window_stream(flat_stream(topo))[i + 1].p0 == window_stream(flat_stream(topo))[i].p3,
{
    let flat = flat_stream(topo);
    assert(window_stream(flat)[i] == window_at(flat, i));
    assert(window_stream(flat)[i + 1] == window_at(flat, i + 1));
    assert(3 * (i + 1) + 1 == 3 * i + 4);
}

/// Position continuity across a shared anchor: the position of segment
/// `i + 1` at `t = 0` equals the position of segment `i` at the theoretical
/// `t = 1`, so shared anchors produce continuous paths.
pub proof fn lemma_position_continuity(topo: Seq<PointV>, i: int, r: int)
    requires
        0 <= i,
        i + 1 < window_stream(flat_stream(topo)).len(),
        1 <= r,
    ensures
        position_num(window_stream(flat_stream(topo))[i + 1], 0, r) == position_num(
            window_stream(flat_stream(topo))[i],
            r,
            r,
        ),
{
    let wa = window_stream(flat_stream(topo))[i];
    let wb = window_stream(flat_stream(topo))[i + 1];
    lemma_windows_share_anchors(topo, i);
    lemma_sample_endpoints(wa, r);
    lemma_sample_endpoints(wb, r);
    assert(v2_scale(wb.p0, (r * r) * r) == v2_scale(wa.p3, (r * r) * r));
}

/// The blend factor of a degenerate (zero-offset) segment at `k / r`:
/// `k^2 * (3r - 2k)`, over denominator `r^3`.
pub open spec fn lerp_blend(k: int, r: int) -> int {
    (k * k) * (3 * r - 2 * k)
}

/// A degenerate straight segment (both control offsets zero, so both
/// absolute controls coincide with their anchors) evaluates, at any
/// parameter, to a linear interpolation between its two anchors: the blend
/// factor lies in `[0, r^3]`, so the position is a convex combination of the
/// anchors.
/// The cubic polynomial of a degenerate segment, written over the anchor
/// coordinates alone, collapses to a linear interpolation with blend factor
/// `k^2 * (3r - 2k)`.
proof fn lemma_lerp_identity(p0: int, p3: int, k: int, r: int)
    by (nonlinear_arith)
    ensures
        (2 * p0 - 2 * p3) * (k * k * k) + (3 * p3 - 3 * p0) * ((k * k) * r) + p0 * ((r * r) * r)
            == p0 * ((r * r) * r) + (p3 - p0) * ((k * k) * (3 * r - 2 * k)),
{
}

pub proof fn lemma_degenerate_is_lerp(w: WindowV, k: int, r: int)
    requires
        w.c1 == w.p0,
        w.c2 == w.p3,
        1 <= r,
        0 <= k <= r,
    ensures
        position_num(w, k, r).x == w.p0.x * ((r * r) * r) + (w.p3.x - w.p0.x) * lerp_blend(
            k,
            r,
        ),
        position_num(w, k, r).y == w.p0.y * ((r * r) * r) + (w.p3.y - w.p0.y) * lerp_blend(
            k,
            r,
        ),
        0 <= lerp_blend(k, r) <= (r * r) * r,
{
    assert(coeff_a(w).x == 2 * w.p0.x - 2 * w.p3.x);
    assert(coeff_b(w).x == 3 * w.p3.x - 3 * w.p0.x);
    assert(coeff_c(w).x == 0);
    assert(coeff_a(w).y == 2 * w.p0.y - 2 * w.p3.y);
    assert(coeff_b(w).y == 3 * w.p3.y - 3 * w.p0.y);
    assert(coeff_c(w).y == 0);
    lemma_lerp_identity(w.p0.x, w.p3.x, k, r);
    lemma_lerp_identity(w.p0.y, w.p3.y, k, r);
    assert(0 <= (k * k) * (3 * r - 2 * k)) by (nonlinear_arith)
        requires
            0 <= k <= r,
    ;
    assert((r * r) * r - (k * k) * (3 * r - 2 * k) == ((r - k) * (r - k)) * (r + 2 * k))
        by (nonlinear_arith);
    assert(0 <= ((r - k) * (r - k)) * (r + 2 * k)) by (nonlinear_arith)
        requires
            0 <= k <= r,
    ;
}

/// The velocity of a degenerate straight segment points from the first
/// anchor to the second, scaled by `6k(r - k)`: it vanishes exactly at the
/// segment's end anchors, the degenerate zero-velocity case downstream
/// normalization must special-case.
/// The derivative of a degenerate segment's polynomial, written over the
/// anchor coordinates alone, is the anchor difference scaled by `6k(r - k)`.
proof fn lemma_vel_identity(p0: int, p3: int, k: int, r: int)
    by (nonlinear_arith)
    ensures
        (6 * p0 - 6 * p3) * (k * k) + (6 * p3 - 6 * p0) * (k * r) == (p3 - p0) * ((6 * k) * (r
            - k)),
{
}

pub proof fn lemma_degenerate_velocity(w: WindowV, k: int, r: int)
    requires
        w.c1 == w.p0,
        w.c2 == w.p3,
        1 <= r,
        0 <= k <= r,
    ensures
        velocity_num(w, k, r) == v2_scale(
            V2 { x: w.p3.x - w.p0.x, y: w.p3.y - w.p0.y },
            (6 * k) * (r - k),
        ),
{
    assert(3 * coeff_a(w).x == 6 * w.p0.x - 6 * w.p3.x);
    assert(2 * coeff_b(w).x == 6 * w.p3.x - 6 * w.p0.x);
    assert(coeff_c(w).x == 0);
    assert(3 * coeff_a(w).y == 6 * w.p0.y - 6 * w.p3.y);
    assert(2 * coeff_b(w).y == 6 * w.p3.y - 6 * w.p0.y);
    assert(coeff_c(w).y == 0);
    lemma_vel_identity(w.p0.x, w.p3.x, k, r);
    lemma_vel_identity(w.p0.y, w.p3.y, k, r);
}

} // verus!
