use vstd::prelude::*;
use crate::geometry::{Vec2, UNITS_PER_PIXEL};

verus! {

pub const PADDLE_WIDTH: i64 = 20 * UNITS_PER_PIXEL;

pub const PADDLE_HEIGHT: i64 = 120 * UNITS_PER_PIXEL;

/// Distance from a window edge to the near side of a paddle at start.
pub const PADDLE_OFFSET: i64 = 240 * UNITS_PER_PIXEL;

/// Vertical speed of a paddle while one of its keys is held.
pub const PADDLE_VEL: i64 = 480;

pub const BALL_RADIUS: i64 = 20 * UNITS_PER_PIXEL;

/// The ball's velocity at start.
pub const BALL_START_VEL_X: i64 = 125;

pub const BALL_START_VEL_Y: i64 = 225;

/// Which side of the field a paddle defends.
#[derive(Clone, Copy, Debug, PartialEq, Eq, Structural)]
pub enum PaddleSide {
    Left,
    Right,
}

/// A paddle: its side, the position of its lower left corner, and its velocity.
#[derive(Clone, Copy, Debug, PartialEq, Eq, Structural)]
pub struct Paddle {
    pub side: PaddleSide,
    pub pos: Vec2,
    pub vel: Vec2,
}

/// The ball: the position of its centre, its velocity and its radius.
#[derive(Clone, Copy, Debug, PartialEq, Eq, Structural)]
pub struct Ball {
    pub pos: Vec2,
    pub vel: Vec2,
    pub radius: i64,
}

/// The whole game: one ball and the paddles.
#[derive(Debug)]
pub struct World {
    pub ball: Ball,
    pub paddles: Vec<Paddle>,
}

/// A window length in pixels, in units.
pub open spec fn units(px: u32) -> int {
    px * UNITS_PER_PIXEL
}

/// Where the paddle of a side starts, in a window `window_width` pixels wide.
pub open spec fn start_pos_of(side: PaddleSide, window_width: u32) -> Vec2 {
    match side {
        PaddleSide::Left => Vec2 { x: (-units(window_width) / 2 + PADDLE_OFFSET) as i64, y: 0 },
        PaddleSide::Right => Vec2 {
            x: (units(window_width) / 2 - PADDLE_OFFSET - PADDLE_WIDTH) as i64,
            y: 0,
        },
    }
}

impl Paddle {
    /// The start position of the paddle of `side`, in a window `window_width` pixels wide.
    pub fn start_pos(side: PaddleSide, window_width: u32) -> (r: Vec2)
        ensures
            r == start_pos_of(side, window_width),
            side == PaddleSide::Left ==> 2 * r.x == -units(window_width) + 2 * PADDLE_OFFSET,
            side == PaddleSide::Right ==> 2 * r.x == units(window_width) - 2 * PADDLE_OFFSET - 2
                * PADDLE_WIDTH,
            r.y == 0,
    {
        let half: i64 = window_width as i64 * (UNITS_PER_PIXEL / 2);
        match side {
            PaddleSide::Left => Vec2 { x: -half + PADDLE_OFFSET, y: 0 },
            PaddleSide::Right => Vec2 { x: half - PADDLE_OFFSET - PADDLE_WIDTH, y: 0 },
        }
    }
}

/// The game at start, in a window `window_width` pixels wide.
pub open spec fn initial_world(window_width: u32, ball: Ball, paddles: Seq<Paddle>) -> bool {
    &&& ball == Ball {
        pos: Vec2 { x: 0, y: 0 },
        vel: Vec2 { x: BALL_START_VEL_X, y: BALL_START_VEL_Y },
        radius: BALL_RADIUS,
    }
    &&& paddles == seq![
        Paddle { side: PaddleSide::Left, pos: start_pos_of(PaddleSide::Left, window_width), vel: Vec2 { x: 0, y: 0 } },
        Paddle { side: PaddleSide::Right, pos: start_pos_of(PaddleSide::Right, window_width), vel: Vec2 { x: 0, y: 0 } },
    ]
}

/// Sets up the game: the ball at the centre, moving, and the left and right
/// paddles at rest at their start positions.
pub fn init(window_width: u32) -> (w: World)
    ensures
        initial_world(window_width, w.ball, w.paddles@),
{
    let ball = Ball {
        pos: Vec2::zero(),
        vel: Vec2::new(BALL_START_VEL_X, BALL_START_VEL_Y),
        radius: BALL_RADIUS,
    };
    let mut paddles: Vec<Paddle> = Vec::new();
    paddles.push(
        Paddle {
            side: PaddleSide::Left,
            pos: Paddle::start_pos(PaddleSide::Left, window_width),
            vel: Vec2::zero(),
        },
    );
    paddles.push(
        Paddle {
            side: PaddleSide::Right,
            pos: Paddle::start_pos(PaddleSide::Right, window_width),
            vel: Vec2::zero(),
        },
    );
    assert(paddles@ =~= seq![
        Paddle { side: PaddleSide::Left, pos: start_pos_of(PaddleSide::Left, window_width), vel: Vec2 { x: 0, y: 0 } },
        Paddle { side: PaddleSide::Right, pos: start_pos_of(PaddleSide::Right, window_width), vel: Vec2 { x: 0, y: 0 } },
    ]);
    World { ball, paddles }
}

} // verus!
