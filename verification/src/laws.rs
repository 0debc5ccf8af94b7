use vstd::prelude::*;

use crate::ball::{sign_ok, BALL_SPEED};
use crate::game_state::{wf_state, GameMode, GameStateV};
use crate::paddle::home_paddles;
use crate::pong::{
    ball_box, ball_integrated, paddle_stepped, reset_applied, reset_rel, sim_rel, sim_stepped,
    wall_rect, GOAL_PAUSE_US,
};
use crate::pong::Side;

verus! {

/// A well-formed state keeps each paddle within the vertical bounds:
/// `0 <= y` and `y + h <= game_height`. Since every constructor establishes
/// well-formedness and every simulation step preserves it, the clamping
/// invariant holds after any sequence of steps.
pub proof fn lemma_paddles_clamped(s: GameStateV)
    requires
        wf_state(s),
    ensures
        forall|i: int|
            0 <= i < s.paddles.len() ==> 0 <= #[trigger] s.paddles[i].rect.y
                && s.paddles[i].rect.y + s.paddles[i].rect.h <= s.game_height,
{
}

/// While the menu is open or a pause countdown is active, a simulation step
/// moves neither the ball nor the paddles and changes no score.
pub proof fn lemma_frozen_step(s: GameStateV, t: int, delta: int, s2: GameStateV)
    requires
        sim_rel(s, t, delta, s2),
        s.game_mode is Menu || s.paused is Some,
    ensures
        s2.ball == s.ball,
        s2.paddles == s.paddles,
        s2.player1_score == s.player1_score,
        s2.player2_score == s.player2_score,
{
}

/// A step in which the integrated ball's bounding square crosses the left
/// goal line scores exactly one point for player 2 and arms the 1.2 second
/// pause countdown; and when nothing else is hit by that square, the round
/// reset leaves the ball at the board centre at full speed on both axes.
pub proof fn lemma_left_goal(s: GameStateV, t: int, delta: int, s2: GameStateV)
    requires
        wf_state(s),
        sim_rel(s, t, delta, s2),
        s.game_mode is Game,
        s.paused is None,
        rects_overlap_left(s, t),
    ensures
        s2.player2_score == s.player2_score + 1,
        s2.paused == Option::Some(GOAL_PAUSE_US as int),
        !rects_overlap_right(s, t) ==> s2.player1_score == s.player1_score,
        !rects_overlap_right(s, t) && !rects_overlap_bottom(s, t) && !rects_overlap_home_paddle(
            s,
            t,
            0,
        ) && !rects_overlap_home_paddle(s, t, 1) ==> s2.ball.x == s.game_width / 2 && s2.ball.y
            == s.game_height / 2 && (s2.ball.dx == BALL_SPEED || s2.ball.dx == -BALL_SPEED) && (
        s2.ball.dy == BALL_SPEED || s2.ball.dy == -BALL_SPEED),
{
    let (sx, sy) = choose|sx: int, sy: int|
        sign_ok(sx) && sign_ok(sy) && s2 == sim_stepped(s, t, sx, sy);
    assert(s2 == sim_stepped(s, t, sx, sy));
}

/// The bounding square of the ball after integration overlaps the given
/// wall of the playfield.
pub open spec fn rects_overlap_left(s: GameStateV, t: int) -> bool {
    crate::geometry::rects_overlap(
        ball_box(ball_integrated(s.ball, t)),
        wall_rect(Side::Left, s.game_width, s.game_height),
    )
}

pub open spec fn rects_overlap_right(s: GameStateV, t: int) -> bool {
    crate::geometry::rects_overlap(
        ball_box(ball_integrated(s.ball, t)),
        wall_rect(Side::Right, s.game_width, s.game_height),
    )
}

pub open spec fn rects_overlap_top(s: GameStateV, t: int) -> bool {
    crate::geometry::rects_overlap(
        ball_box(ball_integrated(s.ball, t)),
        wall_rect(Side::Top, s.game_width, s.game_height),
    )
}

pub open spec fn rects_overlap_bottom(s: GameStateV, t: int) -> bool {
    crate::geometry::rects_overlap(
        ball_box(ball_integrated(s.ball, t)),
        wall_rect(Side::Bottom, s.game_width, s.game_height),
    )
}

/// The bounding square of the ball after integration overlaps home paddle
/// `i` of the playfield (where a round reset puts the paddles).
pub open spec fn rects_overlap_home_paddle(s: GameStateV, t: int, i: int) -> bool {
    crate::geometry::rects_overlap(
        ball_box(ball_integrated(s.ball, t)),
        home_paddles(s.game_width, s.game_height)[i].rect,
    )
}

/// The bounding square of the ball after integration overlaps stepped
/// paddle `i`: the paddle as it stands after this step's movement phase.
pub open spec fn rects_overlap_stepped_paddle(s: GameStateV, t: int, i: int) -> bool {
    crate::geometry::rects_overlap(
        ball_box(ball_integrated(s.ball, t)),
        paddle_stepped(s.paddles[i], s.game_height, t).rect,
    )
}

/// A step in which the integrated ball's bounding square overlaps the
/// right paddle and nothing else flips the sign of `dx`, leaves `dy`
/// untouched, and puts the ball flush against the paddle's front edge:
/// `x == paddle.x - radius`. No score changes and no pause is armed.
pub proof fn lemma_right_paddle_bounce(s: GameStateV, t: int, delta: int, s2: GameStateV)
    requires
        wf_state(s),
        sim_rel(s, t, delta, s2),
        s.game_mode is Game,
        s.paused is None,
        rects_overlap_stepped_paddle(s, t, 1),
        !rects_overlap_stepped_paddle(s, t, 0),
        !rects_overlap_left(s, t),
        !rects_overlap_right(s, t),
        !rects_overlap_top(s, t),
        !rects_overlap_bottom(s, t),
    ensures
        s2.ball.dx == -s.ball.dx,
        s2.ball.dy == s.ball.dy,
        s2.ball.x == paddle_stepped(s.paddles[1], s.game_height, t).rect.x - s.ball.radius,
        s2.player1_score == s.player1_score,
        s2.player2_score == s.player2_score,
        s2.paused is None,
{
    let (sx, sy) = choose|sx: int, sy: int|
        sign_ok(sx) && sign_ok(sy) && s2 == sim_stepped(s, t, sx, sy);
    assert(s2 == sim_stepped(s, t, sx, sy));
}

/// Resetting the round twice in a row lands in the same canonical home
/// state both times: paddles identical, ball at the same centre with the
/// same speed, and only the randomly drawn direction signs free to differ.
/// Everything else about the state is kept.
pub proof fn lemma_reset_idempotent(s: GameStateV, a: GameStateV, b: GameStateV)
    requires
        reset_rel(s, false, a),
        reset_rel(a, false, b),
    ensures
        b.paddles == a.paddles,
        b.ball.x == a.ball.x,
        b.ball.y == a.ball.y,
        b.ball.radius == a.ball.radius,
        b.ball.dx == a.ball.dx || b.ball.dx == -a.ball.dx,
        b.ball.dy == a.ball.dy || b.ball.dy == -a.ball.dy,
        b == (GameStateV { ball: b.ball, ..a }),
{
    let (sx1, sy1) = choose|sx: int, sy: int|
        sign_ok(sx) && sign_ok(sy) && a == reset_applied(s, false, sx, sy);
    let (sx2, sy2) = choose|sx: int, sy: int|
        sign_ok(sx) && sign_ok(sy) && b == reset_applied(a, false, sx, sy);
    assert(a == reset_applied(s, false, sx1, sy1));
    assert(b == reset_applied(a, false, sx2, sy2));
    assert(b =~= (GameStateV { ball: b.ball, ..a }));
}

} // verus!
