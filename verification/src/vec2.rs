use vstd::prelude::*;

verus! {

/// A two-dimensional vector in the mathematical model: unbounded integer
/// components. Contracts throughout the crate speak of values of this type.
pub ghost struct V2 {
    pub x: int,
    pub y: int,
}

/// Componentwise sum of two model vectors.
pub open spec fn v2_add(a: V2, b: V2) -> V2 {
    V2 { x: a.x + b.x, y: a.y + b.y }
}

/// A model vector scaled by an integer factor.
pub open spec fn v2_scale(a: V2, s: int) -> V2 {
    V2 { x: a.x * s, y: a.y * s }
}

/// Magnitude bound on every stored coordinate of a curve point (`2^30`).
///
/// Keeping anchors and control offsets within this bound guarantees that an
/// absolute control position (anchor plus offset) fits comfortably in `i64`.
pub const COORD_LIMIT: i64 = 0x4000_0000;

/// Both components of a model vector lie within `COORD_LIMIT` in magnitude.
pub open spec fn v2_bounded(a: V2) -> bool {
    &&& -COORD_LIMIT <= a.x <= COORD_LIMIT
    &&& -COORD_LIMIT <= a.y <= COORD_LIMIT
}

/// A two-dimensional vector with integer components.
#[derive(Clone, Copy, Debug, PartialEq, Eq, Structural)]
pub struct Vec2 {
    pub x: i64,
    pub y: i64,
}

impl View for Vec2 {
    type V = V2;

    open spec fn view(&self) -> V2 {
        V2 { x: self.x as int, y: self.y as int }
    }
}

impl Vec2 {
    pub fn new(x: i64, y: i64) -> (r: Vec2)
        ensures
            r.x == x,
            r.y == y,
    {
        Vec2 { x, y }
    }

    /// The zero vector: an absent control offset (a straight corner).
    pub fn zero() -> (r: Vec2)
        ensures
            r.x == 0,
            r.y == 0,
    {
        Vec2 { x: 0, y: 0 }
    }

    /// Componentwise vector sum.
    pub fn plus(self, other: Vec2) -> (r: Vec2)
        requires
            i64::MIN <= self.x + other.x <= i64::MAX,
            i64::MIN <= self.y + other.y <= i64::MAX,
        ensures
            r@ == v2_add(self@, other@),
    {
        Vec2 { x: self.x + other.x, y: self.y + other.y }
    }
}

} // verus!
