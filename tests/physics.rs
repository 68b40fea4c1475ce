use pong::collision::{collide, Collision};
use pong::geometry::{reflect_x, reflect_y, Vec2};
use pong::input::{move_paddles, paddle_velocity, Keys};
use pong::physics::{bounce, integrate, integrate_all, paddle_collide, wall_collide, PhysicsPlugin};
use pong::world::{init, Ball, Paddle, PaddleSide, World, BALL_RADIUS, PADDLE_VEL};

fn v(x: i64, y: i64) -> Vec2 {
    Vec2 { x, y }
}

#[test]
fn integrate_adds_velocity_times_dt() {
    assert_eq!(integrate(v(100, -50), v(125, 225), 16), v(100 + 2000, -50 + 3600));
    assert_eq!(integrate(v(7, 8), v(0, 0), 1000), v(7, 8));
    assert_eq!(integrate(v(0, 0), v(-3, 4), -2), v(6, -8));
}

#[test]
fn integrate_all_moves_every_entity() {
    let mut world = init(800);
    world.paddles[0].vel = v(0, 480);
    integrate_all(&mut world, 10);
    assert_eq!(world.ball.pos, v(1250, 2250));
    assert_eq!(world.paddles[0].pos, v(-160_000, 4800));
    assert_eq!(world.paddles[1].pos, v(140_000, 0));
}

#[test]
fn reflect_twice_is_identity() {
    let a = v(125, -225);
    assert_eq!(reflect_x(a), v(-125, -225));
    assert_eq!(reflect_y(a), v(125, 225));
    assert_eq!(reflect_x(reflect_x(a)), a);
    assert_eq!(reflect_y(reflect_y(a)), a);
    let z = v(0, 0);
    assert_eq!(reflect_x(reflect_x(z)), z);
}

#[test]
fn wall_left_flips_outward_x() {
    // window 800 px wide: left edge at -400_000 units
    let r = wall_collide(v(-125, 225), v(-380_000, 0), BALL_RADIUS, 800, 600);
    assert_eq!(r, v(125, 225));
}

#[test]
fn wall_right_flips_outward_x() {
    let r = wall_collide(v(125, 225), v(380_000, 0), BALL_RADIUS, 800, 600);
    assert_eq!(r, v(-125, 225));
}

#[test]
fn wall_leaves_inward_x_alone() {
    let r = wall_collide(v(125, 225), v(-390_000, 0), BALL_RADIUS, 800, 600);
    assert_eq!(r, v(125, 225));
}

#[test]
fn wall_top_and_bottom_flip_y() {
    // window 600 px high: top edge at 300_000 units
    assert_eq!(wall_collide(v(125, 225), v(0, 285_000), BALL_RADIUS, 800, 600), v(125, -225));
    assert_eq!(wall_collide(v(125, -225), v(0, -285_000), BALL_RADIUS, 800, 600), v(125, 225));
    assert_eq!(wall_collide(v(125, -225), v(0, 285_000), BALL_RADIUS, 800, 600), v(125, -225));
}

#[test]
fn wall_corner_prefers_x() {
    let r = wall_collide(v(125, 225), v(390_000, 290_000), BALL_RADIUS, 800, 600);
    assert_eq!(r, v(-125, 225));
}

#[test]
fn wall_inside_is_unchanged() {
    assert_eq!(wall_collide(v(125, 225), v(0, 0), BALL_RADIUS, 800, 600), v(125, 225));
}

#[test]
fn collide_sides() {
    let paddle = v(20, 100);
    let ball = v(14, 14);
    // paddle to the right of the ball: the ball overlaps its left edge
    assert_eq!(collide(v(10, 0), paddle, v(0, 0), ball), Some(Collision::Right));
    assert_eq!(collide(v(-10, 0), paddle, v(0, 0), ball), Some(Collision::Left));
    assert_eq!(collide(v(0, 0), v(100, 20), v(0, 12), ball), Some(Collision::Bottom));
    assert_eq!(collide(v(0, 0), v(100, 20), v(0, -12), ball), Some(Collision::Top));
    assert_eq!(collide(v(100, 0), paddle, v(0, 0), ball), None);
    // touching edges do not overlap
    assert_eq!(collide(v(17, 0), paddle, v(0, 0), ball), None);
    // fully inside on both axes: no side
    assert_eq!(collide(v(0, 0), v(100, 100), v(0, 0), ball), None);
}

#[test]
fn collide_corner_picks_shallower_axis() {
    // x penetration 4, y penetration 2: the y side wins
    assert_eq!(collide(v(13, 15), v(20, 20), v(0, 0), v(14, 14)), Some(Collision::Top));
    // equal penetration: the x side wins
    assert_eq!(collide(v(14, 14), v(20, 20), v(0, 0), v(14, 14)), Some(Collision::Right));
}

#[test]
fn bounce_only_towards_paddle() {
    assert_eq!(bounce(v(5, 3), Some(Collision::Right)), v(-5, 3));
    assert_eq!(bounce(v(-5, 3), Some(Collision::Right)), v(-5, 3));
    assert_eq!(bounce(v(-5, 3), Some(Collision::Left)), v(5, 3));
    assert_eq!(bounce(v(5, 3), Some(Collision::Top)), v(5, -3));
    assert_eq!(bounce(v(5, -3), Some(Collision::Bottom)), v(5, 3));
    assert_eq!(bounce(v(5, 3), None), v(5, 3));
}

fn paddle_at(side: PaddleSide, x: i64, y: i64) -> Paddle {
    Paddle { side, pos: v(x, y), vel: v(0, 0) }
}

#[test]
fn ball_on_paddle_left_edge_bounces_once() {
    // paddle spans x in [0, 20_000], y in [0, 120_000]; ball centre left of it
    let ball = v(-10_000, 60_000);
    let one = vec![paddle_at(PaddleSide::Right, 0, 0)];
    assert_eq!(paddle_collide(ball, v(125, 225), &one), v(-125, 225));
    // a second overlapping paddle does not negate again
    let two = vec![paddle_at(PaddleSide::Right, 0, 0), paddle_at(PaddleSide::Left, 0, 0)];
    assert_eq!(paddle_collide(ball, v(125, 225), &two), v(-125, 225));
    // moving away from the paddle: unchanged
    assert_eq!(paddle_collide(ball, v(-125, 225), &two), v(-125, 225));
}

#[test]
fn paddle_collide_skips_untouched_paddles() {
    let ball = v(-10_000, 60_000);
    let ps = vec![paddle_at(PaddleSide::Left, 500_000, 0), paddle_at(PaddleSide::Right, 0, 0)];
    assert_eq!(paddle_collide(ball, v(125, 225), &ps), v(-125, 225));
    let none: Vec<Paddle> = Vec::new();
    assert_eq!(paddle_collide(ball, v(125, 225), &none), v(125, 225));
}

#[test]
fn paddle_velocity_from_keys() {
    assert_eq!(paddle_velocity(true, false), PADDLE_VEL);
    assert_eq!(paddle_velocity(false, true), -PADDLE_VEL);
    assert_eq!(paddle_velocity(false, false), 0);
    assert_eq!(paddle_velocity(true, true), 0);
    assert_eq!(PADDLE_VEL, 480);
}

#[test]
fn move_paddles_sets_each_side() {
    let mut world = init(800);
    world.paddles[0].vel = v(7, 99);
    let keys = Keys { w: true, s: false, up: true, down: true };
    move_paddles(&keys, &mut world.paddles);
    assert_eq!(world.paddles[0].vel, v(7, 480));
    assert_eq!(world.paddles[1].vel, v(0, 0));
    let keys = Keys { w: false, s: true, up: false, down: true };
    move_paddles(&keys, &mut world.paddles);
    assert_eq!(world.paddles[0].vel, v(7, -480));
    assert_eq!(world.paddles[1].vel, v(0, -480));
    assert_eq!(world.paddles[0].pos, Paddle::start_pos(PaddleSide::Left, 800));
}

#[test]
fn start_positions() {
    assert_eq!(Paddle::start_pos(PaddleSide::Left, 800), v(-160_000, 0));
    assert_eq!(Paddle::start_pos(PaddleSide::Right, 800), v(140_000, 0));
    assert_eq!(Paddle::start_pos(PaddleSide::Left, 0), v(240_000, 0));
    assert_eq!(Paddle::start_pos(PaddleSide::Right, 1281), v(640_500 - 260_000, 0));
}

#[test]
fn init_places_entities() {
    let world = init(1280);
    assert_eq!(world.ball, Ball { pos: v(0, 0), vel: v(125, 225), radius: 20_000 });
    assert_eq!(world.paddles.len(), 2);
    assert_eq!(world.paddles[0].side, PaddleSide::Left);
    assert_eq!(world.paddles[0].pos, v(-400_000, 0));
    assert_eq!(world.paddles[1].side, PaddleSide::Right);
    assert_eq!(world.paddles[1].pos, v(380_000, 0));
}

#[test]
fn step_runs_integrate_walls_paddles() {
    let mut world = World {
        ball: Ball { pos: v(370_000, 0), vel: v(1000, 0), radius: BALL_RADIUS },
        paddles: vec![paddle_at(PaddleSide::Right, 900_000, 0)],
    };
    PhysicsPlugin.step(&mut world, 10, 800, 600);
    assert_eq!(world.ball.pos, v(380_000, 0));
    assert_eq!(world.ball.vel, v(-1000, 0));
}

#[test]
fn step_bounces_off_paddle() {
    let mut world = World {
        ball: Ball { pos: v(-20_000, 60_000), vel: v(1000, 0), radius: BALL_RADIUS },
        paddles: vec![paddle_at(PaddleSide::Right, 0, 0)],
    };
    PhysicsPlugin.step(&mut world, 10, 800, 600);
    assert_eq!(world.ball.pos, v(-10_000, 60_000));
    assert_eq!(world.ball.vel, v(-1000, 0));
}
