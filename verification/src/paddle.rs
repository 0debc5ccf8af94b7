use vstd::prelude::*;

use crate::config::{MAX_DIM, MAX_SPEED, PX};
use crate::geometry::{Rect, RectV};
use crate::pong::Side;

verus! {

/// Paddle width, in micro-pixels.
pub const PADDLE_WIDTH: i64 = 12 * PX;

/// Paddle height, in micro-pixels.
pub const PADDLE_HEIGHT: i64 = 75 * PX;

/// Paddle speed, in pixels per second.
pub const PADDLE_SPEED: i64 = 450;

/// A paddle: its rectangle, the side it guards, its fixed speed `dy` in
/// pixels per second, and the movement-intent flags set by input handling.
#[derive(Clone, Copy, Debug)]
pub struct Paddle {
    pub rect: Rect,
    pub side: Side,
    pub dy: i64,
    pub is_up_holding: bool,
    pub is_down_holding: bool,
}

/// Ghost mirror of `Paddle` over unbounded integers.
#[verifier::ext_equal]
pub struct PaddleV {
    pub rect: RectV,
    pub side: Side,
    pub dy: int,
    pub is_up_holding: bool,
    pub is_down_holding: bool,
}

impl View for Paddle {
    type V = PaddleV;

    open spec fn view(&self) -> PaddleV {
        PaddleV {
            rect: self.rect@,
            side: self.side,
            dy: self.dy as int,
            is_up_holding: self.is_up_holding,
            is_down_holding: self.is_down_holding,
        }
    }
}

/// Bounds and the clamping invariant: the paddle lies fully between the top
/// and bottom walls of a playfield of height `game_h`.
pub open spec fn wf_paddle(p: PaddleV, game_h: int) -> bool {
    &&& 0 <= p.rect.y
    &&& p.rect.y + p.rect.h <= game_h
    &&& 0 <= p.rect.h <= game_h
    &&& 0 <= p.rect.x <= MAX_DIM
    &&& 0 <= p.rect.w <= MAX_DIM
    &&& 0 <= p.dy <= MAX_SPEED
}

/// A paddle at its home position: flush against its side wall, vertically
/// centred, with no movement intent.
pub open spec fn home_paddle(w: int, h: int, side: Side) -> PaddleV {
    PaddleV {
        rect: RectV {
            x: if side is Left {
                0
            } else {
                w - PADDLE_WIDTH
            },
            y: (h - PADDLE_HEIGHT) / 2,
            w: PADDLE_WIDTH as int,
            h: PADDLE_HEIGHT as int,
        },
        side: side,
        dy: PADDLE_SPEED as int,
        is_up_holding: false,
        is_down_holding: false,
    }
}

/// The two paddles at their home positions, left first.
pub open spec fn home_paddles(w: int, h: int) -> Seq<PaddleV> {
    seq![home_paddle(w, h, Side::Left), home_paddle(w, h, Side::Right)]
}

impl Paddle {
    /// A paddle at its home position against the given side wall. Paddles go
    /// on the left or right walls only.
    pub fn new(game_width: i64, game_height: i64, side: Side) -> (p: Paddle)
        requires
            side is Left || side is Right,
            PADDLE_WIDTH <= game_width <= MAX_DIM,
            PADDLE_HEIGHT <= game_height <= MAX_DIM,
        ensures
            p@ == home_paddle(game_width as int, game_height as int, side),
            wf_paddle(p@, game_height as int),
    {
        let x: i64 = match side {
            Side::Left => 0,
            Side::Right => game_width - PADDLE_WIDTH,
            _ => 0,
        };
        let y: i64 = (game_height - PADDLE_HEIGHT) / 2;
        Paddle {
            rect: Rect { x, y, w: PADDLE_WIDTH, h: PADDLE_HEIGHT },
            side,
            dy: PADDLE_SPEED,
            is_up_holding: false,
            is_down_holding: false,
        }
    }
}

} // verus!
