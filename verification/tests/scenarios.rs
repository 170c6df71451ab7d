use curvepipe::curve::{Curve, CurvePoint};
use curvepipe::eval::{eval_position, eval_velocity, WideVec2};
use curvepipe::vec2::Vec2;
use curvepipe::windows::Window;

fn point(cix: i64, ciy: i64, px: i64, py: i64, cox: i64, coy: i64) -> CurvePoint {
    CurvePoint::new(Vec2::new(cix, ciy), Vec2::new(px, py), Vec2::new(cox, coy))
}

fn three_anchor_curve(closed: bool) -> Curve {
    // A(2,3) with out-control [4,5]; B[6,7](8,9)[10,11]; C[12,13](14,15).
    let mut curve = Curve::new();
    curve.points.push(point(0, 0, 2, 3, 4, 5));
    curve.points.push(point(6, 7, 8, 9, 10, 11));
    curve.points.push(point(12, 13, 14, 15, 0, 0));
    curve.is_closed = closed;
    curve
}

#[test]
fn three_anchors_open_counts() {
    let curve = three_anchor_curve(false);

    assert_eq!(curve.iter().len(), 3);
    assert_eq!(curve.iter().spline().len(), 9);
    assert_eq!(curve.iter().spline().spline_windows().len(), 2);

    let mut sampled = curve.sampled_iter(40);
    assert_eq!(sampled.len(), 80);
    let mut descriptors = Vec::new();
    while let Some(d) = sampled.next() {
        descriptors.push(d);
    }
    assert_eq!(descriptors.len(), 80);
    for (j, (seg, step)) in descriptors.iter().enumerate() {
        if j < 40 {
            assert_eq!(*seg, 0);
        } else {
            assert_eq!(*seg, 1);
        }
        assert_eq!(*step as usize, j % 40);
    }
}

#[test]
fn three_anchors_closed_counts() {
    let curve = three_anchor_curve(true);

    assert_eq!(curve.iter().len(), 4);
    assert_eq!(curve.iter().spline().len(), 12);
    assert_eq!(curve.iter().spline().spline_windows().len(), 3);

    let sampled = curve.sampled_iter(40);
    assert_eq!(sampled.len(), 3 * 40);
}

fn degenerate_curve() -> Curve {
    // One straight segment from (0,0) to (8,4), all control offsets zero.
    let mut curve = Curve::new();
    curve.points.push(point(0, 0, 0, 0, 0, 0));
    curve.points.push(point(0, 0, 8, 4, 0, 0));
    curve
}

#[test]
fn degenerate_segment_positions_are_lerp() {
    let curve = degenerate_curve();
    let mut positions = curve.sampled_iter(4).with_positions();
    assert_eq!(positions.len(), 4);

    // Blend factor k^2 * (3r - 2k) over denominator r^3 = 64.
    let blends: [i128; 4] = [0, 10, 32, 54];
    for (k, blend) in blends.iter().enumerate() {
        let ((seg, step), p) = positions.next().unwrap();
        assert_eq!(seg, 0);
        assert_eq!(step as usize, k);
        assert_eq!(p, WideVec2 { x: 8 * blend, y: 4 * blend });
        // The sample lies on the straight line between the anchors.
        assert_eq!(p.x, 2 * p.y);
    }
    assert!(positions.next().is_none());
}

#[test]
fn degenerate_segment_velocities() {
    let curve = degenerate_curve();
    let mut velocities = curve.sampled_iter(4).with_velocities();
    assert_eq!(velocities.len(), 4);

    // Velocity numerator (p3 - p0) * 6k(r - k) over denominator r^2 = 16.
    let factors: [i128; 4] = [0, 18, 24, 18];
    for factor in factors.iter() {
        let (_, v) = velocities.next().unwrap();
        assert_eq!(v, WideVec2 { x: 8 * factor, y: 4 * factor });
    }
    // The zero-velocity sample at the start anchor is a valid result.
    assert_eq!(factors[0], 0);
}

#[test]
fn sample_at_zero_reproduces_anchor() {
    let mut curve = Curve::new();
    curve.points.push(point(0, 1, 2, 3, 4, 5));
    curve.points.push(point(6, 7, 8, 9, 10, 11));
    curve.points.push(point(12, 13, 14, 15, 16, 17));

    const RES: u16 = 4;
    let mut positions = curve.sampled_iter(RES).with_positions();
    let anchors = [(2i128, 3i128), (8, 9)];
    let scale: i128 = (RES as i128).pow(3);
    let mut j = 0usize;
    while let Some(((seg, step), p)) = positions.next() {
        if step == 0 {
            let (ax, ay) = anchors[seg as usize];
            assert_eq!(p, WideVec2 { x: ax * scale, y: ay * scale });
        }
        j += 1;
    }
    assert_eq!(j, 8);
}

#[test]
fn position_continuity_across_segments() {
    let mut curve = Curve::new();
    curve.points.push(point(0, 1, 2, 3, 4, 5));
    curve.points.push(point(6, 7, 8, 9, 10, 11));
    curve.points.push(point(12, 13, 14, 15, 16, 17));

    let mut windows = curve.iter().spline().spline_windows();
    let w0 = windows.next().unwrap();
    let w1 = windows.next().unwrap();
    assert!(windows.next().is_none());
    assert_eq!(w0.p3, w1.p0);

    const RES: u16 = 40;
    // The theoretical sample of segment 0 at t = 1 equals the sample of
    // segment 1 at t = 0, and both reproduce the shared anchor.
    let end_of_first = eval_position(&w0, RES, RES);
    let start_of_second = eval_position(&w1, 0, RES);
    assert_eq!(end_of_first, start_of_second);
    let scale: i128 = (RES as i128).pow(3);
    assert_eq!(end_of_first, WideVec2 { x: 8 * scale, y: 9 * scale });
}

#[test]
fn sampled_exposes_control_matrix() {
    let curve = three_anchor_curve(false);
    let mut sampled = curve.sampled_iter(2);
    sampled.next().unwrap();
    let w = sampled.mat();
    assert_eq!(
        w,
        Window {
            p0: Vec2::new(2, 3),
            c1: Vec2::new(2 + 4, 3 + 5),
            c2: Vec2::new(8 + 6, 9 + 7),
            p3: Vec2::new(8, 9),
        }
    );
    // Advance into the second segment: the buffered window follows.
    sampled.next().unwrap();
    sampled.next().unwrap();
    let w = sampled.mat();
    assert_eq!(w.p0, Vec2::new(8, 9));
    assert_eq!(w.p3, Vec2::new(14, 15));
}

#[test]
fn empty_curve_yields_nothing() {
    let curve = Curve::new();
    assert_eq!(curve.iter().len(), 0);
    let mut sampled = curve.sampled_iter(40);
    assert_eq!(sampled.len(), 0);
    assert!(sampled.next().is_none());

    let mut closed = Curve::new();
    closed.is_closed = true;
    assert_eq!(closed.iter().len(), 0);
    assert_eq!(closed.sampled_iter(40).len(), 0);
}

#[test]
fn single_point_open_yields_nothing() {
    let mut curve = Curve::new();
    curve.points.push(point(1, 2, 3, 4, 5, 6));
    assert_eq!(curve.iter().len(), 1);
    assert_eq!(curve.iter().spline().len(), 3);
    assert_eq!(curve.iter().spline().spline_windows().len(), 0);
    assert_eq!(curve.sampled_iter(7).len(), 0);
}

#[test]
fn single_point_closed_yields_one_loop_segment() {
    let mut curve = Curve::new();
    curve.points.push(point(1, 2, 3, 4, 5, 6));
    curve.is_closed = true;
    assert_eq!(curve.iter().len(), 2);
    let mut windows = curve.iter().spline().spline_windows();
    assert_eq!(windows.len(), 1);
    let w = windows.next().unwrap();
    assert_eq!(
        w,
        Window {
            p0: Vec2::new(3, 4),
            c1: Vec2::new(3 + 5, 4 + 6),
            c2: Vec2::new(3 + 1, 4 + 2),
            p3: Vec2::new(3, 4),
        }
    );
    assert_eq!(curve.sampled_iter(5).len(), 5);
}

#[test]
fn rectangle_curve_matches_corners() {
    let curve = Curve::from_rect(10, 20, 30, 40);
    assert!(curve.is_closed);
    assert_eq!(curve.points.len(), 4);
    assert_eq!(curve.points[0].p, Vec2::new(10, 20));
    assert_eq!(curve.points[1].p, Vec2::new(40, 20));
    assert_eq!(curve.points[2].p, Vec2::new(40, 60));
    assert_eq!(curve.points[3].p, Vec2::new(10, 60));
    for pt in &curve.points {
        assert_eq!(pt.c_in, Vec2::new(0, 0));
        assert_eq!(pt.c_out, Vec2::new(0, 0));
    }
    // Four corners, closed: four windows, each a degenerate straight edge.
    assert_eq!(curve.iter().spline().spline_windows().len(), 4);
}

#[test]
fn pos_vel_iter_yields_both() {
    let curve = degenerate_curve();
    let mut iter = curve.pos_vel_iter(4);
    assert_eq!(iter.len(), 4);
    let (seg, step, p, v) = iter.next().unwrap();
    assert_eq!((seg, step), (0, 0));
    assert_eq!(p, WideVec2 { x: 0, y: 0 });
    assert_eq!(v, WideVec2 { x: 0, y: 0 });
    let (seg, step, p, v) = iter.next().unwrap();
    assert_eq!((seg, step), (0, 1));
    assert_eq!(p, WideVec2 { x: 80, y: 40 });
    assert_eq!(v, WideVec2 { x: 144, y: 72 });
}

#[test]
fn evaluation_stages_compose_in_either_order() {
    let curve = degenerate_curve();
    let mut a = curve.sampled_iter(4).with_positions().with_velocities();
    let mut b = curve.sampled_iter(4).with_velocities().with_positions();
    for _ in 0..4 {
        assert_eq!(a.next(), b.next());
    }
    assert_eq!(a.next(), None);
    assert_eq!(b.next(), None);
}

#[test]
fn partially_consumed_chain() {
    let curve = three_anchor_curve(false);
    let mut iter = curve.iter();
    assert_eq!(iter.len(), 3);
    iter.next().unwrap();
    assert_eq!(iter.len(), 2);
    let flat = iter.spline();
    assert_eq!(flat.len(), 6);

    let mut flat = curve.iter().spline();
    flat.next().unwrap();
    assert_eq!(flat.len(), 8);
}

#[test]
fn velocity_of_known_curve() {
    // Segment from (0,0) to (8,4) with out-control (4,0) on the first anchor:
    // at t = 0 the velocity numerator is 3 * c1 * r^2.
    let mut curve = Curve::new();
    curve.points.push(point(0, 0, 0, 0, 4, 0));
    curve.points.push(point(0, 0, 8, 4, 0, 0));

    let mut windows = curve.iter().spline().spline_windows();
    let w = windows.next().unwrap();
    let v = eval_velocity(&w, 0, 4);
    assert_eq!(v, WideVec2 { x: 3 * 4 * 16, y: 0 });
}
