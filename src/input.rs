use vstd::prelude::*;
use crate::geometry::Vec2;
use crate::world::{Paddle, PaddleSide, PADDLE_VEL};

verus! {

/// Which of the four paddle keys are held: `w` and `s` move the left paddle
/// up and down, `up` and `down` the right one.
#[derive(Clone, Copy, Debug, PartialEq, Eq, Structural)]
pub struct Keys {
    pub w: bool,
    pub s: bool,
    pub up: bool,
    pub down: bool,
}

/// The vertical velocity of a paddle whose up and down keys are held as given:
/// held keys cancel out.
pub open spec fn velocity_for(up: bool, down: bool) -> i64 {
    if up && !down {
        PADDLE_VEL
    } else if down && !up {
        (-PADDLE_VEL) as i64
    } else {
        0
    }
}

/// The vertical velocity that the keys give to the paddle of `side`.
pub open spec fn side_velocity(keys: Keys, side: PaddleSide) -> i64 {
    match side {
        PaddleSide::Left => velocity_for(keys.w, keys.s),
        PaddleSide::Right => velocity_for(keys.up, keys.down),
    }
}

/// `p` with its vertical velocity set from the keys.
pub open spec fn steered(keys: Keys, p: Paddle) -> Paddle {
    Paddle { vel: Vec2 { x: p.vel.x, y: side_velocity(keys, p.side) }, ..p }
}

/// The vertical velocity of a paddle whose up and down keys are held as given.
pub fn paddle_velocity(up: bool, down: bool) -> (r: i64)
    ensures
        r == velocity_for(up, down),
        up && !down ==> r == PADDLE_VEL,
        down && !up ==> r == -PADDLE_VEL,
        up == down ==> r == 0,
{
    let up_part: i64 = if up { PADDLE_VEL } else { 0 };
    let down_part: i64 = if down { PADDLE_VEL } else { 0 };
    up_part - down_part
}

/// Sets the vertical velocity of every paddle from the keys of its side.
pub fn move_paddles(keys: &Keys, paddles: &mut Vec<Paddle>)
    ensures
        final(paddles)@.len() == old(paddles)@.len(),
        forall|i: int|
            0 <= i < old(paddles)@.len() ==> #[trigger] final(paddles)@[i] == steered(
                *keys,
                old(paddles)@[i],
            ),
{
    let l_vel = paddle_velocity(keys.w, keys.s);
    let r_vel = paddle_velocity(keys.up, keys.down);
    let n = paddles.len();
    let mut i: usize = 0;
    while i < n
        invariant
            n == old(paddles)@.len(),
            paddles@.len() == n,
            0 <= i <= n,
            l_vel == side_velocity(*keys, PaddleSide::Left),
            r_vel == side_velocity(*keys, PaddleSide::Right),
            forall|j: int| 0 <= j < i ==> #[trigger] paddles@[j] == steered(*keys, old(paddles)@[j]),
            forall|j: int| i <= j < n ==> #[trigger] paddles@[j] == old(paddles)@[j],
        decreases n - i,
    {
        let p = paddles[i];
        let vy = match p.side {
            PaddleSide::Left => l_vel,
            PaddleSide::Right => r_vel,
        };
        paddles.set(i, Paddle { side: p.side, pos: p.pos, vel: Vec2 { x: p.vel.x, y: vy } });
        i = i + 1;
    }
}

} // verus!
