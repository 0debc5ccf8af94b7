use vstd::prelude::*;

use crate::config::{COORD_LIMIT, MAX_DIM, MAX_SPEED, PX};
use crate::random::sample_inclusive;

verus! {

/// Ball radius, in micro-pixels.
pub const BALL_RADIUS: i64 = 8 * PX;

/// Ball speed along each axis, in pixels per second.
pub const BALL_SPEED: i64 = 500;

/// The ball: centre position in micro-pixels, velocity in pixels per second.
#[derive(Clone, Copy, Debug)]
pub struct Ball {
    pub x: i64,
    pub y: i64,
    pub radius: i64,
    pub dx: i64,
    pub dy: i64,
}

/// Ghost mirror of `Ball` over unbounded integers.
#[verifier::ext_equal]
pub struct BallV {
    pub x: int,
    pub y: int,
    pub radius: int,
    pub dx: int,
    pub dy: int,
}

impl View for Ball {
    type V = BallV;

    open spec fn view(&self) -> BallV {
        BallV {
            x: self.x as int,
            y: self.y as int,
            radius: self.radius as int,
            dx: self.dx as int,
            dy: self.dy as int,
        }
    }
}

/// Bounds under which the simulation step cannot overflow.
pub open spec fn wf_ball(b: BallV) -> bool {
    &&& -COORD_LIMIT <= b.x <= COORD_LIMIT
    &&& -COORD_LIMIT <= b.y <= COORD_LIMIT
    &&& 0 < b.radius <= MAX_DIM
    &&& -MAX_SPEED <= b.dx <= MAX_SPEED
    &&& -MAX_SPEED <= b.dy <= MAX_SPEED
}

/// A direction sign: each axis of a fresh ball's velocity is `+1` or `-1`.
pub open spec fn sign_ok(s: int) -> bool {
    s == 1 || s == -1
}

/// A fresh ball: at the centre of the board, moving at `BALL_SPEED` along
/// each axis with the given direction signs.
pub open spec fn home_ball(w: int, h: int, sx: int, sy: int) -> BallV {
    BallV { x: w / 2, y: h / 2, radius: BALL_RADIUS as int, dx: sx * BALL_SPEED, dy: sy * BALL_SPEED }
}

impl Ball {
    /// A ball at the centre of the board, with the sign of each velocity
    /// axis drawn independently at random.
    pub fn new(game_width: i64, game_height: i64) -> (b: Ball)
        requires
            0 <= game_width <= MAX_DIM,
            0 <= game_height <= MAX_DIM,
        ensures
            wf_ball(b@),
            exists|sx: int, sy: int|
                sign_ok(sx) && sign_ok(sy) && b@ == home_ball(
                    game_width as int,
                    game_height as int,
                    sx,
                    sy,
                ),
    {
        let ix = sample_inclusive(0, 1);
        let iy = sample_inclusive(0, 1);
        let dx: i64 = if ix == 0 {
            BALL_SPEED
        } else {
            -BALL_SPEED
        };
        let dy: i64 = if iy == 0 {
            BALL_SPEED
        } else {
            -BALL_SPEED
        };
        let b = Ball { x: game_width / 2, y: game_height / 2, radius: BALL_RADIUS, dx, dy };
        proof {
            let sx: int = if ix == 0 {
                1
            } else {
                -1
            };
            let sy: int = if iy == 0 {
                1
            } else {
                -1
            };
            assert(sign_ok(sx) && sign_ok(sy) && b@ == home_ball(
                game_width as int,
                game_height as int,
                sx,
                sy,
            ));
        }
        b
    }
}

} // verus!
