use vstd::prelude::*;
use crate::collision::{collide, collision_of, Collision};
use crate::geometry::{fits, negatable, reflect_x, reflect_y, reflected_x, reflected_y, Vec2, UNITS_PER_PIXEL};
use crate::world::{units, Ball, Paddle, World, BALL_RADIUS, PADDLE_HEIGHT, PADDLE_WIDTH};

verus! {

/// Whether one Euler step of `dt` from `pos` at `vel` stays within `i64`.
pub open spec fn can_integrate(pos: Vec2, vel: Vec2, dt: int) -> bool {
    &&& fits(vel.x * dt)
    &&& fits(pos.x + vel.x * dt)
    &&& fits(vel.y * dt)
    &&& fits(pos.y + vel.y * dt)
}

/// The position one Euler step of `dt` after `pos`, at velocity `vel`.
pub open spec fn integrated(pos: Vec2, vel: Vec2, dt: int) -> Vec2 {
    Vec2 { x: (pos.x + vel.x * dt) as i64, y: (pos.y + vel.y * dt) as i64 }
}

/// Advances `pos` by `vel` over `dt`.
pub fn integrate(pos: Vec2, vel: Vec2, dt: i64) -> (r: Vec2)
    requires
        can_integrate(pos, vel, dt as int),
    ensures
        r.x == pos.x + vel.x * dt,
        r.y == pos.y + vel.y * dt,
        r == integrated(pos, vel, dt as int),
{
    Vec2 { x: pos.x + vel.x * dt, y: pos.y + vel.y * dt }
}

/// Whether paddle `p` can move by its velocity over `dt` within `i64`.
pub open spec fn paddle_can_integrate(p: Paddle, dt: int) -> bool {
    can_integrate(p.pos, p.vel, dt)
}

/// `p` moved by its velocity over `dt`.
pub open spec fn paddle_integrated(p: Paddle, dt: int) -> Paddle {
    Paddle { side: p.side, pos: integrated(p.pos, p.vel, dt), vel: p.vel }
}

/// Moves the ball and every paddle by its velocity over `dt`.
pub fn integrate_all(world: &mut World, dt: i64)
    requires
        can_integrate(old(world).ball.pos, old(world).ball.vel, dt as int),
        forall|i: int|
            0 <= i < old(world).paddles@.len() ==> paddle_can_integrate(
                #[trigger] old(world).paddles@[i],
                dt as int,
            ),
    ensures
        final(world).ball == (Ball {
            pos: integrated(old(world).ball.pos, old(world).ball.vel, dt as int),
            ..old(world).ball
        }),
        final(world).paddles@.len() == old(world).paddles@.len(),
        forall|i: int|
            0 <= i < old(world).paddles@.len() ==> #[trigger] final(world).paddles@[i]
                == paddle_integrated(old(world).paddles@[i], dt as int),
{
    world.ball.pos = integrate(world.ball.pos, world.ball.vel, dt);
    let n = world.paddles.len();
    let mut i: usize = 0;
    while i < n
        invariant
            n == old(world).paddles@.len(),
            world.paddles@.len() == n,
            world.ball == (Ball {
                pos: integrated(old(world).ball.pos, old(world).ball.vel, dt as int),
                ..old(world).ball
            }),
            0 <= i <= n,
            forall|j: int| 0 <= j < i ==> #[trigger] world.paddles@[j] == paddle_integrated(old(world).paddles@[j], dt as int),
            forall|j: int| i <= j < n ==> #[trigger] world.paddles@[j] == old(world).paddles@[j],
            forall|j: int|
                0 <= j < n ==> paddle_can_integrate(#[trigger] old(world).paddles@[j], dt as int),
        decreases n - i,
    {
        let p = world.paddles[i];
        assert(paddle_can_integrate(old(world).paddles@[i as int], dt as int));
        let moved = Paddle { side: p.side, pos: integrate(p.pos, p.vel, dt), vel: p.vel };
        world.paddles.set(i, moved);
        i = i + 1;
    }
}

/// Whether the ball crosses the left or right window edge while moving outward.
/// The window, `width` units wide, is centred on the origin.
pub open spec fn hits_x_wall(pos: Vec2, vel: Vec2, radius: int, width: int) -> bool {
    (-width >= 2 * (pos.x - radius) && vel.x < 0) || (width <= 2 * (pos.x + radius) && vel.x > 0)
}

/// Whether the ball crosses the bottom or top window edge while moving outward.
pub open spec fn hits_y_wall(pos: Vec2, vel: Vec2, radius: int, height: int) -> bool {
    (-height >= 2 * (pos.y - radius) && vel.y < 0) || (height <= 2 * (pos.y + radius) && vel.y > 0)
}

/// The ball's velocity after the walls: an x crossing takes precedence over a y crossing.
pub open spec fn walled(vel: Vec2, pos: Vec2, radius: int, width: int, height: int) -> Vec2 {
    if hits_x_wall(pos, vel, radius, width) {
        reflected_x(vel)
    } else if hits_y_wall(pos, vel, radius, height) {
        reflected_y(vel)
    } else {
        vel
    }
}

/// Bounces a ball of centre `pos` and radius `radius` off the edges of a
/// window of `width` by `height` pixels centred on the origin.
pub fn wall_collide(vel: Vec2, pos: Vec2, radius: i64, width: u32, height: u32) -> (r: Vec2)
    requires
        negatable(vel),
    ensures
        r == walled(vel, pos, radius as int, units(width), units(height)),
        hits_x_wall(pos, vel, radius as int, units(width)) ==> r.x == -vel.x && r.y
            == vel.y,
        !hits_x_wall(pos, vel, radius as int, units(width)) && hits_y_wall(
            pos,
            vel,
            radius as int,
            units(height),
        ) ==> r.x == vel.x && r.y == -vel.y,
        negatable(r),
{
    let w = width as i128 * UNITS_PER_PIXEL as i128;
    let h = height as i128 * UNITS_PER_PIXEL as i128;
    let x = pos.x as i128;
    let y = pos.y as i128;
    let rad = radius as i128;
    if (-w >= 2 * (x - rad) && vel.x < 0) || (w <= 2 * (x + rad) && vel.x > 0) {
        reflect_x(vel)
    } else if (-h >= 2 * (y - rad) && vel.y < 0) || (h <= 2 * (y + rad) && vel.y > 0) {
        reflect_y(vel)
    } else {
        vel
    }
}

/// Whether the centre of a paddle at `p` fits in `i64`.
pub open spec fn paddle_fits(p: Vec2) -> bool {
    fits(p.x + PADDLE_WIDTH / 2) && fits(p.y + PADDLE_HEIGHT / 2)
}

/// How the box of a paddle at `paddle_pos` meets the ball's box.
pub open spec fn paddle_hit(ball_pos: Vec2, paddle_pos: Vec2) -> Option<Collision> {
    collision_of(
        paddle_pos.x + PADDLE_WIDTH / 2,
        paddle_pos.y + PADDLE_HEIGHT / 2,
        PADDLE_WIDTH as int,
        PADDLE_HEIGHT as int,
        ball_pos.x as int,
        ball_pos.y as int,
        2 * BALL_RADIUS,
        2 * BALL_RADIUS,
    )
}

/// The collision with the first paddle, from index `i` on, that the ball touches.
pub open spec fn first_hit_from(ball_pos: Vec2, ps: Seq<Paddle>, i: int) -> Option<Collision>
    decreases ps.len() - i,
{
    if i < 0 || i >= ps.len() {
        None
    } else {
        match paddle_hit(ball_pos, ps[i].pos) {
            Some(c) => Some(c),
            None => first_hit_from(ball_pos, ps, i + 1),
        }
    }
}

/// The collision with the first paddle that the ball touches.
pub open spec fn first_hit(ball_pos: Vec2, ps: Seq<Paddle>) -> Option<Collision> {
    first_hit_from(ball_pos, ps, 0)
}

/// The velocity after a collision `c` with a paddle: the component towards
/// the paddle is negated, and only if the ball moves towards it.
pub open spec fn bounced(vel: Vec2, c: Option<Collision>) -> Vec2 {
    match c {
        Some(Collision::Left) => if vel.x < 0 { reflected_x(vel) } else { vel },
        Some(Collision::Right) => if vel.x > 0 { reflected_x(vel) } else { vel },
        Some(Collision::Top) => if vel.y > 0 { reflected_y(vel) } else { vel },
        Some(Collision::Bottom) => if vel.y < 0 { reflected_y(vel) } else { vel },
        None => vel,
    }
}

/// Applies the collision `c` with a paddle to the ball's velocity.
pub fn bounce(vel: Vec2, c: Option<Collision>) -> (r: Vec2)
    requires
        negatable(vel),
    ensures
        r == bounced(vel, c),
        negatable(r),
{
    match c {
        Some(Collision::Left) => if vel.x < 0 { reflect_x(vel) } else { vel },
        Some(Collision::Right) => if vel.x > 0 { reflect_x(vel) } else { vel },
        Some(Collision::Top) => if vel.y > 0 { reflect_y(vel) } else { vel },
        Some(Collision::Bottom) => if vel.y < 0 { reflect_y(vel) } else { vel },
        None => vel,
    }
}

/// Bounces the ball at `ball_pos` off the first of `paddles` that it touches, if any.
pub fn paddle_collide(ball_pos: Vec2, vel: Vec2, paddles: &Vec<Paddle>) -> (r: Vec2)
    requires
        negatable(vel),
        forall|i: int| 0 <= i < paddles@.len() ==> paddle_fits(#[trigger] paddles@[i].pos),
    ensures
        r == bounced(vel, first_hit(ball_pos, paddles@)),
        negatable(r),
{
    let ball_size = Vec2 { x: 2 * BALL_RADIUS, y: 2 * BALL_RADIUS };
    let paddle_size = Vec2 { x: PADDLE_WIDTH, y: PADDLE_HEIGHT };
    let mut i: usize = 0;
    while i < paddles.len()
        invariant
            0 <= i <= paddles@.len(),
            negatable(vel),
            first_hit(ball_pos, paddles@) == first_hit_from(ball_pos, paddles@, i as int),
            forall|j: int| 0 <= j < paddles@.len() ==> paddle_fits(#[trigger] paddles@[j].pos),
            ball_size.x == 2 * BALL_RADIUS && ball_size.y == 2 * BALL_RADIUS,
            paddle_size.x == PADDLE_WIDTH && paddle_size.y == PADDLE_HEIGHT,
        decreases paddles@.len() - i,
    {
        let p = paddles[i].pos;
        assert(paddle_fits(paddles@[i as int].pos));
        let centre = Vec2 { x: p.x + PADDLE_WIDTH / 2, y: p.y + PADDLE_HEIGHT / 2 };
        let c = collide(centre, paddle_size, ball_pos, ball_size);
        if c.is_some() {
            return bounce(vel, c);
        }
        i = i + 1;
    }
    vel
}

/// Where no paddle before index `i` touches the ball, the first hit is the
/// first hit from `i` on.
pub proof fn lemma_first_hit_skips(ball_pos: Vec2, ps: Seq<Paddle>, k: int, i: int)
    requires
        0 <= k <= i <= ps.len(),
        forall|j: int| k <= j < i ==> paddle_hit(ball_pos, #[trigger] ps[j].pos) is None,
    ensures
        first_hit_from(ball_pos, ps, k) == first_hit_from(ball_pos, ps, i),
    decreases i - k,
{
    if k < i {
        lemma_first_hit_skips(ball_pos, ps, k + 1, i);
    }
}

/// A ball that overlaps the left edge of a paddle (the box test gives
/// `Collision::Right`: the paddle sticks out to the right of the ball) while
/// moving right has its x velocity negated exactly once, whatever later
/// paddles it also overlaps: only the first paddle touched counts.
pub proof fn lemma_paddle_left_edge_bounce(ball_pos: Vec2, vel: Vec2, ps: Seq<Paddle>, i: int)
    requires
        0 <= i < ps.len(),
        forall|j: int| 0 <= j < i ==> paddle_hit(ball_pos, #[trigger] ps[j].pos) is None,
        paddle_hit(ball_pos, ps[i].pos) == Some(Collision::Right),
        vel.x > 0,
    ensures
        bounced(vel, first_hit(ball_pos, ps)) == reflected_x(vel),
        bounced(vel, first_hit(ball_pos, ps)).x == -vel.x,
{
    lemma_first_hit_skips(ball_pos, ps, 0, i);
}

/// The three per-frame physics steps, run in order: integration, walls, paddles.
pub struct PhysicsPlugin;

impl PhysicsPlugin {
    /// Runs one frame of `dt` in a window of `width` by `height` pixels.
    pub fn step(&self, world: &mut World, dt: i64, width: u32, height: u32)
        requires
            can_integrate(old(world).ball.pos, old(world).ball.vel, dt as int),
            negatable(old(world).ball.vel),
            forall|i: int|
                0 <= i < old(world).paddles@.len() ==> paddle_can_integrate(
                    #[trigger] old(world).paddles@[i],
                    dt as int,
                ),
            forall|i: int|
                0 <= i < old(world).paddles@.len() ==> paddle_fits(
                    integrated(
                        #[trigger] old(world).paddles@[i].pos,
                        old(world).paddles@[i].vel,
                        dt as int,
                    ),
                ),
        ensures
            final(world).ball.pos == integrated(old(world).ball.pos, old(world).ball.vel, dt as int),
            final(world).ball.radius == old(world).ball.radius,
            final(world).paddles@.len() == old(world).paddles@.len(),
            forall|i: int|
                0 <= i < old(world).paddles@.len() ==> #[trigger] final(world).paddles@[i]
                    == paddle_integrated(old(world).paddles@[i], dt as int),
            final(world).ball.vel == bounced(
                walled(
                    old(world).ball.vel,
                    final(world).ball.pos,
                    old(world).ball.radius as int,
                    units(width),
                    units(height),
                ),
                first_hit(final(world).ball.pos, final(world).paddles@),
            ),
    {
        integrate_all(world, dt);
        world.ball.vel = wall_collide(world.ball.vel, world.ball.pos, world.ball.radius, width, height);
        assert forall|i: int| 0 <= i < world.paddles@.len() implies paddle_fits(
            #[trigger] world.paddles@[i].pos,
        ) by {
            assert(world.paddles@[i] == paddle_integrated(old(world).paddles@[i], dt as int));
        }
        world.ball.vel = paddle_collide(world.ball.pos, world.ball.vel, &world.paddles);
    }
}

} // verus!
