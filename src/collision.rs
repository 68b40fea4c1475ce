use vstd::prelude::*;
use crate::geometry::Vec2;

verus! {

/// The side on which two axis-aligned boxes touch, seen from the first box.
#[derive(Clone, Copy, Debug, PartialEq, Eq, Structural)]
pub enum Collision {
    Left,
    Right,
    Top,
    Bottom,
}

pub open spec fn abs(v: int) -> int {
    if v < 0 { -v } else { v }
}

/// Side detection along one axis, on doubled coordinates: the side and the
/// (doubled) penetration depth, if the first interval sticks out on exactly one side.
pub open spec fn axis_hit(
    a_min: int,
    a_max: int,
    b_min: int,
    b_max: int,
    low: Collision,
    high: Collision,
) -> Option<(Collision, int)> {
    if a_min < b_min && a_max > b_min && a_max < b_max {
        Some((low, b_min - a_max))
    } else if a_min > b_min && a_min < b_max && a_max > b_max {
        Some((high, a_min - b_max))
    } else {
        None
    }
}

/// Whether, and on which side, the box of centre `(ax, ay)` and size `(aw, ah)`
/// collides with the box of centre `(bx, by)` and size `(bw, bh)`.
/// Where both axes give a side, the one of smaller penetration wins, and the
/// x axis on a tie.
pub open spec fn collision_of(
    ax: int,
    ay: int,
    aw: int,
    ah: int,
    bx: int,
    by: int,
    bw: int,
    bh: int,
) -> Option<Collision> {
    let a_min_x = 2 * ax - aw;
    let a_max_x = 2 * ax + aw;
    let a_min_y = 2 * ay - ah;
    let a_max_y = 2 * ay + ah;
    let b_min_x = 2 * bx - bw;
    let b_max_x = 2 * bx + bw;
    let b_min_y = 2 * by - bh;
    let b_max_y = 2 * by + bh;
    if a_min_x < b_max_x && a_max_x > b_min_x && a_min_y < b_max_y && a_max_y > b_min_y {
        let xh = axis_hit(a_min_x, a_max_x, b_min_x, b_max_x, Collision::Left, Collision::Right);
        let yh = axis_hit(a_min_y, a_max_y, b_min_y, b_max_y, Collision::Bottom, Collision::Top);
        match (xh, yh) {
            (Some((xc, xd)), Some((yc, yd))) => if abs(yd) < abs(xd) {
                Some(yc)
            } else {
                Some(xc)
            },
            (Some((xc, _)), None) => Some(xc),
            (None, Some((yc, _))) => Some(yc),
            (None, None) => None,
        }
    } else {
        None
    }
}

fn axis_hit_exec(
    a_min: i128,
    a_max: i128,
    b_min: i128,
    b_max: i128,
    low: Collision,
    high: Collision,
) -> (r: Option<(Collision, i128)>)
    requires
        -0x4000_0000_0000_0000_0000 <= a_min <= 0x4000_0000_0000_0000_0000,
        -0x4000_0000_0000_0000_0000 <= a_max <= 0x4000_0000_0000_0000_0000,
        -0x4000_0000_0000_0000_0000 <= b_min <= 0x4000_0000_0000_0000_0000,
        -0x4000_0000_0000_0000_0000 <= b_max <= 0x4000_0000_0000_0000_0000,
    ensures
        match (r, axis_hit(a_min as int, a_max as int, b_min as int, b_max as int, low, high)) {
            (Some((c, d)), Some((sc, sd))) => c == sc && d as int == sd,
            (None, None) => true,
            _ => false,
        },
        r matches Some((_, d)) ==> -0x8000_0000_0000_0000_0000 <= d <= 0x8000_0000_0000_0000_0000,
{
    if a_min < b_min && a_max > b_min && a_max < b_max {
        Some((low, b_min - a_max))
    } else if a_min > b_min && a_min < b_max && a_max > b_max {
        Some((high, a_min - b_max))
    } else {
        None
    }
}

fn abs_exec(v: i128) -> (r: i128)
    requires
        v > i128::MIN,
    ensures
        r == abs(v as int),
{
    if v < 0 { -v } else { v }
}

/// Axis-aligned box collision with side detection: `a_pos` and `b_pos` are the
/// centres of the boxes, `a_size` and `b_size` their widths and heights.
pub fn collide(a_pos: Vec2, a_size: Vec2, b_pos: Vec2, b_size: Vec2) -> (r: Option<Collision>)
    ensures
        r == collision_of(
            a_pos.x as int,
            a_pos.y as int,
            a_size.x as int,
            a_size.y as int,
            b_pos.x as int,
            b_pos.y as int,
            b_size.x as int,
            b_size.y as int,
        ),
{
    let a_min_x = 2 * (a_pos.x as i128) - a_size.x as i128;
    let a_max_x = 2 * (a_pos.x as i128) + a_size.x as i128;
    let a_min_y = 2 * (a_pos.y as i128) - a_size.y as i128;
    let a_max_y = 2 * (a_pos.y as i128) + a_size.y as i128;
    let b_min_x = 2 * (b_pos.x as i128) - b_size.x as i128;
    let b_max_x = 2 * (b_pos.x as i128) + b_size.x as i128;
    let b_min_y = 2 * (b_pos.y as i128) - b_size.y as i128;
    let b_max_y = 2 * (b_pos.y as i128) + b_size.y as i128;
    if a_min_x < b_max_x && a_max_x > b_min_x && a_min_y < b_max_y && a_max_y > b_min_y {
        let xh = axis_hit_exec(a_min_x, a_max_x, b_min_x, b_max_x, Collision::Left, Collision::Right);
        let yh = axis_hit_exec(a_min_y, a_max_y, b_min_y, b_max_y, Collision::Bottom, Collision::Top);
        match (xh, yh) {
            (Some((xc, xd)), Some((yc, yd))) => {
                if abs_exec(yd) < abs_exec(xd) {
                    Some(yc)
                } else {
                    Some(xc)
                }
            },
            (Some((xc, _)), None) => Some(xc),
            (None, Some((yc, _))) => Some(yc),
            (None, None) => None,
        }
    } else {
        None
    }
}

} // verus!
