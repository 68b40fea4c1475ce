use vstd::prelude::*;

verus! {

/// Milli-pixels in one pixel.
pub const UNITS_PER_PIXEL: i64 = 1000;

/// Whether an integer fits in an `i64`.
pub open spec fn fits(v: int) -> bool {
    i64::MIN <= v <= i64::MAX
}

/// A point or a velocity in the plane, in fixed-point units.
#[derive(Clone, Copy, Debug, PartialEq, Eq, Structural)]
pub struct Vec2 {
    pub x: i64,
    pub y: i64,
}

/// Whether both components of `v` can be negated within an `i64`.
pub open spec fn negatable(v: Vec2) -> bool {
    v.x != i64::MIN && v.y != i64::MIN
}

/// `v` with its x component negated.
pub open spec fn reflected_x(v: Vec2) -> Vec2 {
    Vec2 { x: (-v.x) as i64, y: v.y }
}

/// `v` with its y component negated.
pub open spec fn reflected_y(v: Vec2) -> Vec2 {
    Vec2 { x: v.x, y: (-v.y) as i64 }
}

impl Vec2 {
    /// The zero vector.
    pub fn zero() -> (r: Vec2)
        ensures
            r.x == 0 && r.y == 0,
    {
        Vec2 { x: 0, y: 0 }
    }

    pub fn new(x: i64, y: i64) -> (r: Vec2)
        ensures
            r.x == x && r.y == y,
    {
        Vec2 { x, y }
    }
}

/// Negates the x component of `v`.
pub fn reflect_x(v: Vec2) -> (r: Vec2)
    requires
        v.x != i64::MIN,
    ensures
        r == reflected_x(v),
        r.x == -v.x,
{
    Vec2 { x: -v.x, y: v.y }
}

/// Negates the y component of `v`.
pub fn reflect_y(v: Vec2) -> (r: Vec2)
    requires
        v.y != i64::MIN,
    ensures
        r == reflected_y(v),
        r.y == -v.y,
{
    Vec2 { x: v.x, y: -v.y }
}

/// Reflecting a velocity twice on the same axis gives it back unchanged.
pub proof fn lemma_reflect_twice(v: Vec2)
    requires
        negatable(v),
    ensures
        negatable(reflected_x(v)),
        negatable(reflected_y(v)),
        reflected_x(reflected_x(v)) == v,
        reflected_y(reflected_y(v)) == v,
{
}

} // verus!
