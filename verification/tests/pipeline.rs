use curvepipe::curve::{Curve, CurvePoint};
use curvepipe::vec2::Vec2;
use curvepipe::windows::Window;

fn point(cix: i64, ciy: i64, px: i64, py: i64, cox: i64, coy: i64) -> CurvePoint {
    CurvePoint::new(Vec2::new(cix, ciy), Vec2::new(px, py), Vec2::new(cox, coy))
}

fn demo_curve(closed: bool) -> Curve {
    let mut curve = Curve::new();
    curve.points.push(point(0, 1, 2, 3, 4, 5));
    curve.points.push(point(6, 7, 8, 9, 10, 11));
    curve.points.push(point(12, 13, 14, 15, 16, 17));
    curve.is_closed = closed;
    curve
}

#[test]
fn test_curve_iter() {
    let curve = demo_curve(false);

    let iter = curve.iter();
    assert_eq!(iter.len(), curve.points.len());

    let mut iter = curve.iter();
    let mut points = Vec::new();
    while let Some(p) = iter.next() {
        points.push(p);
    }
    assert_eq!(points.len(), curve.points.len());

    assert_eq!(points[0], point(0, 1, 2, 3, 4, 5));
    assert_eq!(points[1], point(6, 7, 8, 9, 10, 11));
    assert_eq!(points[2], point(12, 13, 14, 15, 16, 17));
}

#[test]
fn test_curve_iter_cyclic() {
    let curve = demo_curve(true);

    let iter = curve.iter();
    assert_eq!(iter.len(), curve.points.len() + 1);

    let mut iter = curve.iter();
    let mut points = Vec::new();
    while let Some(p) = iter.next() {
        points.push(p);
    }
    assert_eq!(points.len(), curve.points.len() + 1);

    assert_eq!(points[0], point(0, 1, 2, 3, 4, 5));
    assert_eq!(points[1], point(6, 7, 8, 9, 10, 11));
    assert_eq!(points[2], point(12, 13, 14, 15, 16, 17));
    assert_eq!(points[3], point(0, 1, 2, 3, 4, 5));
}

#[test]
fn test_spline_iter() {
    let curve = demo_curve(false);

    let iter = curve.iter().spline();
    assert_eq!(iter.len(), curve.points.len() * 3);

    let mut iter = curve.iter().spline();
    let mut points = Vec::new();
    while let Some(v) = iter.next() {
        points.push(v);
    }
    assert_eq!(points.len(), curve.points.len() * 3);

    let expected = [
        (2 + 0, 3 + 1),
        (2, 3),
        (2 + 4, 3 + 5),
        (8 + 6, 9 + 7),
        (8, 9),
        (8 + 10, 9 + 11),
        (14 + 12, 15 + 13),
        (14, 15),
        (14 + 16, 15 + 17),
    ];
    let expected: Vec<Vec2> = expected.iter().map(|&(x, y)| Vec2::new(x, y)).collect();
    assert_eq!(&points[..], &expected[..]);
}

#[test]
fn test_spline_iter_cyclic() {
    let curve = demo_curve(true);

    let iter = curve.iter().spline();
    assert_eq!(iter.len(), (curve.points.len() + 1) * 3);

    let mut iter = curve.iter().spline();
    let mut points = Vec::new();
    while let Some(v) = iter.next() {
        points.push(v);
    }
    assert_eq!(points.len(), (curve.points.len() + 1) * 3);

    let expected = [
        (2 + 0, 3 + 1),
        (2, 3),
        (2 + 4, 3 + 5),
        (8 + 6, 9 + 7),
        (8, 9),
        (8 + 10, 9 + 11),
        (14 + 12, 15 + 13),
        (14, 15),
        (14 + 16, 15 + 17),
        (2 + 0, 3 + 1),
        (2, 3),
        (2 + 4, 3 + 5),
    ];
    let expected: Vec<Vec2> = expected.iter().map(|&(x, y)| Vec2::new(x, y)).collect();
    assert_eq!(&points[..], &expected[..]);
}

#[test]
fn test_spline_windows_iter() {
    let curve = demo_curve(false);

    let iter = curve.iter().spline().spline_windows();
    assert_eq!(iter.len(), curve.points.len() - 1);

    let mut iter = curve.iter().spline().spline_windows();
    let mut windows = Vec::new();
    while let Some(w) = iter.next() {
        windows.push(w);
    }
    assert_eq!(windows.len(), curve.points.len() - 1);

    assert_eq!(
        windows[0],
        Window {
            p0: Vec2::new(2, 3),
            c1: Vec2::new(2 + 4, 3 + 5),
            c2: Vec2::new(8 + 6, 9 + 7),
            p3: Vec2::new(8, 9),
        }
    );
    assert_eq!(
        windows[1],
        Window {
            p0: Vec2::new(8, 9),
            c1: Vec2::new(8 + 10, 9 + 11),
            c2: Vec2::new(14 + 12, 15 + 13),
            p3: Vec2::new(14, 15),
        }
    );
}

#[test]
fn test_spline_windows_iter_cyclic() {
    let curve = demo_curve(true);

    let iter = curve.iter().spline().spline_windows();
    assert_eq!(iter.len(), curve.points.len());

    let mut iter = curve.iter().spline().spline_windows();
    let mut windows = Vec::new();
    while let Some(w) = iter.next() {
        windows.push(w);
    }
    assert_eq!(windows.len(), curve.points.len());

    assert_eq!(
        windows[0],
        Window {
            p0: Vec2::new(2, 3),
            c1: Vec2::new(2 + 4, 3 + 5),
            c2: Vec2::new(8 + 6, 9 + 7),
            p3: Vec2::new(8, 9),
        }
    );
    assert_eq!(
        windows[1],
        Window {
            p0: Vec2::new(8, 9),
            c1: Vec2::new(8 + 10, 9 + 11),
            c2: Vec2::new(14 + 12, 15 + 13),
            p3: Vec2::new(14, 15),
        }
    );
    assert_eq!(
        windows[2],
        Window {
            p0: Vec2::new(14, 15),
            c1: Vec2::new(14 + 16, 15 + 17),
            c2: Vec2::new(2 + 0, 3 + 1),
            p3: Vec2::new(2, 3),
        }
    );
}

#[test]
fn test_sampled_iter() {
    const RES: u16 = 4;

    let curve = demo_curve(false);
    let expected_count = (curve.points.len() - 1) * RES as usize;

    let iter = curve.iter().spline().spline_windows().sampled(RES);
    assert_eq!(iter.len(), expected_count);

    let mut iter = curve.iter().spline().spline_windows().sampled(RES);
    let mut samples = Vec::new();
    while let Some(d) = iter.next() {
        samples.push(d);
    }
    assert_eq!(samples.len(), expected_count);

    for (i, t) in samples {
        println!("{i}, {t}");
    }
}

#[test]
fn test_positions_iter() {
    const RES: u16 = 40;

    let curve = demo_curve(false);
    let expected_count = (curve.points.len() - 1) * RES as usize;

    let iter = curve.iter().spline().spline_windows().sampled(RES).with_positions();
    assert_eq!(iter.len(), expected_count);

    let mut iter = curve.iter().spline().spline_windows().sampled(RES).with_positions();
    let mut points = Vec::new();
    while let Some(p) = iter.next() {
        points.push(p);
    }
    assert_eq!(points.len(), expected_count);
}

#[test]
fn test_positions_iter_cyclic() {
    const RES: u16 = 40;

    let curve = demo_curve(true);
    let expected_count = curve.points.len() * RES as usize;

    let iter = curve.iter().spline().spline_windows().sampled(RES).with_positions();
    assert_eq!(iter.len(), expected_count);

    let mut iter = curve.iter().spline().spline_windows().sampled(RES).with_positions();
    let mut points = Vec::new();
    while let Some(p) = iter.next() {
        points.push(p);
    }
    assert_eq!(points.len(), expected_count);
}
