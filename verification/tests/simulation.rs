use pong::ball::Ball;
use pong::config::PX;
use pong::game_state::{GameMode, GameState};
use pong::pong::SoundType;

const W: i64 = 1280 * PX;
const H: i64 = 720 * PX;
const TICK: u64 = 16_667;

fn running_state() -> GameState {
    let mut s = GameState::new(W, H);
    s.paused = None;
    s
}

#[test]
fn menu_mode_freezes_everything() {
    let mut s = running_state();
    s.game_mode = GameMode::Menu;
    let ball = s.ball;
    let pad0 = s.paddles[0].rect;
    let pad1 = s.paddles[1].rect;
    s.paddles[0].is_up_holding = true;
    s.simulate(TICK, TICK);
    assert_eq!(s.ball.x, ball.x);
    assert_eq!(s.ball.y, ball.y);
    assert_eq!(s.paddles[0].rect.y, pad0.y);
    assert_eq!(s.paddles[1].rect.y, pad1.y);
    assert_eq!(s.player1_score, 0);
    assert_eq!(s.player2_score, 0);
}

#[test]
fn pause_countdown_freezes_and_ticks() {
    let mut s = GameState::new(W, H);
    assert_eq!(s.paused, Some(1_200_000));
    let ball = s.ball;
    s.paddles[1].is_down_holding = true;
    s.simulate(TICK, TICK);
    assert_eq!(s.paused, Some(1_200_000 - TICK));
    assert_eq!(s.ball.x, ball.x);
    assert_eq!(s.ball.y, ball.y);
}

#[test]
fn pause_countdown_expires() {
    let mut s = GameState::new(W, H);
    let mut guard = 0;
    while s.paused.is_some() {
        s.simulate(TICK, TICK);
        guard += 1;
        assert!(guard < 100);
    }
    // 71 whole ticks leave a remainder smaller than one tick, which the
    // 72nd tick exhausts.
    assert_eq!(guard, 72);
}

#[test]
fn paddle_moves_up_while_up_held() {
    let mut s = running_state();
    let y0 = s.paddles[0].rect.y;
    s.paddles[0].is_up_holding = true;
    s.simulate(TICK, TICK);
    // y decreases by speed * time: 450 px/s for 16667 us.
    assert_eq!(s.paddles[0].rect.y, y0 - 450 * TICK as i64);
    assert_eq!(s.paddles[1].rect.y, y0);
}

#[test]
fn paddle_moves_down_while_down_held() {
    let mut s = running_state();
    let y0 = s.paddles[1].rect.y;
    s.paddles[1].is_down_holding = true;
    s.simulate(TICK, TICK);
    assert_eq!(s.paddles[1].rect.y, y0 + 450 * TICK as i64);
}

#[test]
fn paddle_holds_still_with_both_or_neither_intent() {
    let mut s = running_state();
    let y0 = s.paddles[0].rect.y;
    s.paddles[0].is_up_holding = true;
    s.paddles[0].is_down_holding = true;
    s.simulate(TICK, TICK);
    assert_eq!(s.paddles[0].rect.y, y0);
    assert_eq!(s.paddles[1].rect.y, y0);
}

#[test]
fn paddle_clamps_at_top_wall() {
    let mut s = running_state();
    s.paddles[0].rect.y = 2 * PX;
    s.paddles[0].is_up_holding = true;
    s.simulate(TICK, TICK);
    assert_eq!(s.paddles[0].rect.y, 0);
}

#[test]
fn paddle_clamps_at_bottom_wall() {
    let mut s = running_state();
    s.paddles[0].rect.y = H - s.paddles[0].rect.h - 2 * PX;
    s.paddles[0].is_down_holding = true;
    s.simulate(TICK, TICK);
    assert_eq!(s.paddles[0].rect.y, H - s.paddles[0].rect.h);
}

#[test]
fn ball_integrates_position() {
    let mut s = running_state();
    s.ball = Ball { x: 640 * PX, y: 360 * PX, radius: 8 * PX, dx: 500, dy: -500 };
    s.simulate(TICK, TICK);
    assert_eq!(s.ball.x, 640 * PX + 500 * TICK as i64);
    assert_eq!(s.ball.y, 360 * PX - 500 * TICK as i64);
    assert_eq!(s.ball.dx, 500);
    assert_eq!(s.ball.dy, -500);
}

#[test]
fn ball_reflects_off_top_wall() {
    let mut s = running_state();
    s.ball = Ball { x: 640 * PX, y: 10 * PX, radius: 8 * PX, dx: 0, dy: -500 };
    s.simulate(TICK, TICK);
    assert_eq!(s.ball.y, 8 * PX);
    assert_eq!(s.ball.dy, 500);
    assert_eq!(s.take_sounds(), vec![SoundType::Wall]);
}

#[test]
fn ball_reflects_off_bottom_wall() {
    let mut s = running_state();
    s.ball = Ball { x: 640 * PX, y: H - 10 * PX, radius: 8 * PX, dx: 0, dy: 500 };
    s.simulate(TICK, TICK);
    assert_eq!(s.ball.y, H - 8 * PX);
    assert_eq!(s.ball.dy, -500);
    assert_eq!(s.take_sounds(), vec![SoundType::Wall]);
}

#[test]
fn left_goal_scores_resets_and_pauses() {
    let mut s = running_state();
    s.ball = Ball { x: 10 * PX, y: 600 * PX, radius: 8 * PX, dx: -500, dy: 0 };
    s.simulate(TICK, TICK);
    assert_eq!(s.player2_score, 1);
    assert_eq!(s.player1_score, 0);
    assert_eq!(s.paused, Some(1_200_000));
    assert_eq!(s.ball.x, 640 * PX);
    assert_eq!(s.ball.y, 360 * PX);
    assert!(s.ball.dx == 500 || s.ball.dx == -500);
    assert!(s.ball.dy == 500 || s.ball.dy == -500);
    // The goal also re-homes the paddles.
    assert_eq!(s.paddles[0].rect.y, (H - s.paddles[0].rect.h) / 2);
    assert_eq!(s.take_sounds(), vec![SoundType::Goal]);
}

#[test]
fn right_goal_scores_for_player_one() {
    let mut s = running_state();
    s.ball = Ball { x: W - 10 * PX, y: 600 * PX, radius: 8 * PX, dx: 500, dy: 0 };
    s.simulate(TICK, TICK);
    assert_eq!(s.player1_score, 1);
    assert_eq!(s.player2_score, 0);
    assert_eq!(s.paused, Some(1_200_000));
    assert_eq!(s.ball.x, 640 * PX);
    assert_eq!(s.take_sounds(), vec![SoundType::Goal]);
}

#[test]
fn right_paddle_bounce_flips_dx_and_keeps_dy() {
    let mut s = running_state();
    s.ball = Ball { x: 1253 * PX, y: 360 * PX, radius: 8 * PX, dx: 500, dy: 0 };
    s.simulate(TICK, TICK);
    // Flush against the paddle front: paddle.x - radius.
    assert_eq!(s.ball.x, s.paddles[1].rect.x - s.ball.radius);
    assert_eq!(s.ball.x, W - 12 * PX - 8 * PX);
    assert_eq!(s.ball.dx, -500);
    assert_eq!(s.ball.dy, 0);
    assert_eq!(s.player1_score, 0);
    assert_eq!(s.player2_score, 0);
    assert_eq!(s.paused, None);
    assert_eq!(s.take_sounds(), vec![SoundType::Pad]);
}

#[test]
fn left_paddle_bounce_pushes_ball_out() {
    let mut s = running_state();
    s.ball = Ball { x: 27 * PX, y: 360 * PX, radius: 8 * PX, dx: -500, dy: 0 };
    s.simulate(TICK, TICK);
    // Flush against the paddle front: paddle.x + paddle.w + radius.
    assert_eq!(s.ball.x, 12 * PX + 8 * PX);
    assert_eq!(s.ball.dx, 500);
    assert_eq!(s.ball.dy, 0);
    assert_eq!(s.take_sounds(), vec![SoundType::Pad]);
}

#[test]
fn corner_hit_applies_wall_then_goal_in_order() {
    // Bounding square straddles the top wall and the left goal line in the
    // same step: both branches apply in construction order, so the top
    // reflection is then swallowed by the goal's round reset.
    let mut s = running_state();
    s.ball = Ball { x: 10 * PX, y: 10 * PX, radius: 8 * PX, dx: -500, dy: -500 };
    s.simulate(TICK, TICK);
    assert_eq!(s.player2_score, 1);
    assert_eq!(s.paused, Some(1_200_000));
    assert_eq!(s.ball.x, 640 * PX);
    assert_eq!(s.ball.y, 360 * PX);
    assert_eq!(s.take_sounds(), vec![SoundType::Wall, SoundType::Goal]);
}

#[test]
fn sounds_are_suppressed_when_off() {
    let mut s = running_state();
    s.play_sounds = false;
    s.ball = Ball { x: 10 * PX, y: 600 * PX, radius: 8 * PX, dx: -500, dy: 0 };
    s.simulate(TICK, TICK);
    assert_eq!(s.player2_score, 1);
    assert!(s.sound_queue.is_empty());
}

#[test]
fn take_sounds_drains_the_queue() {
    let mut s = running_state();
    s.play_sound(SoundType::Pad);
    s.play_sound(SoundType::Goal);
    assert_eq!(s.take_sounds(), vec![SoundType::Pad, SoundType::Goal]);
    assert!(s.sound_queue.is_empty());
    assert_eq!(s.take_sounds(), vec![]);
}

#[test]
fn reset_game_is_idempotent_up_to_direction() {
    let mut s = running_state();
    s.player1_score = 3;
    s.player2_score = 7;
    s.reset_game(false);
    let ball_a = s.ball;
    let pad_a0 = s.paddles[0].rect;
    let pad_a1 = s.paddles[1].rect;
    s.paused = None;
    s.reset_game(false);
    assert_eq!(s.ball.x, ball_a.x);
    assert_eq!(s.ball.y, ball_a.y);
    assert_eq!(s.ball.radius, ball_a.radius);
    assert_eq!(s.ball.dx.abs(), ball_a.dx.abs());
    assert_eq!(s.ball.dy.abs(), ball_a.dy.abs());
    assert_eq!(s.paddles[0].rect, pad_a0);
    assert_eq!(s.paddles[1].rect, pad_a1);
    assert_eq!(s.player1_score, 3);
    assert_eq!(s.player2_score, 7);
    assert_eq!(s.paused, Some(1_200_000));
}

#[test]
fn reset_game_with_score_reset_zeroes_both() {
    let mut s = running_state();
    s.player1_score = 3;
    s.player2_score = 7;
    s.reset_game(true);
    assert_eq!(s.player1_score, 0);
    assert_eq!(s.player2_score, 0);
}

#[test]
fn update_splits_a_frame_into_fixed_steps() {
    let mut s = running_state();
    s.ball = Ball { x: 640 * PX, y: 360 * PX, radius: 8 * PX, dx: 500, dy: 0 };
    // Three whole ticks and one remainder of 999 us.
    s.update(3 * TICK + 999);
    assert_eq!(s.ball.x, 640 * PX + 500 * (3 * TICK as i64 + 999));
}

#[test]
fn frozen_time_scale_stops_motion() {
    let mut s = running_state();
    s.time_scale_freeze();
    let x0 = s.ball.x;
    s.update(5 * TICK);
    assert_eq!(s.ball.x, x0);
}

#[test]
fn raised_time_scale_stretches_each_step() {
    let mut s = running_state();
    s.ball = Ball { x: 640 * PX, y: 360 * PX, radius: 8 * PX, dx: 500, dy: 0 };
    s.time_scale_up();
    // One tick of 16667 us at 1500 permille simulates 25000 us.
    s.update(TICK);
    assert_eq!(s.ball.x, 640 * PX + 500 * 25_000);
}

#[test]
fn time_scale_steps_up_down_and_resets() {
    let mut s = running_state();
    s.time_scale_up();
    assert_eq!(s.time_scale, 1500);
    s.time_scale_down();
    assert_eq!(s.time_scale, 1000);
    s.time_scale_down();
    assert_eq!(s.time_scale, 666);
    s.time_scale_reset();
    assert_eq!(s.time_scale, 1000);
}

#[test]
fn full_rally_to_right_goal() {
    // Playfield 1280 x 720, ball from the centre at (+500, -500) px/s:
    // bounces off the top wall, then crosses the right goal line.
    let mut s = GameState::new(W, H);
    s.paused = None;
    s.ball = Ball { x: 640 * PX, y: 360 * PX, radius: 8 * PX, dx: 500, dy: -500 };
    let mut ticks = 0;
    while s.player1_score == 0 {
        s.update(TICK);
        ticks += 1;
        assert!(ticks < 200);
    }
    assert_eq!(ticks, 76);
    assert_eq!(s.player1_score, 1);
    assert_eq!(s.player2_score, 0);
    assert_eq!(s.ball.x, 640 * PX);
    assert_eq!(s.ball.y, 360 * PX);
    assert_eq!(s.paused, Some(1_200_000));
    // The top-wall bounce on the way is in the sound trail.
    let sounds = s.take_sounds();
    assert_eq!(sounds, vec![SoundType::Wall, SoundType::Goal]);
}
