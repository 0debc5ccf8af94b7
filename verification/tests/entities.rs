use pong::ball::{Ball, BALL_RADIUS, BALL_SPEED};
use pong::config::PX;
use pong::game_state::{GameMode, GameState, DEFAULT_TIME_SCALE, TICK_US};
use pong::geometry::Rect;
use pong::menu::{Menu, MenuChoices, MENU_ITEMS_TOTAL};
use pong::paddle::{Paddle, PADDLE_HEIGHT, PADDLE_SPEED, PADDLE_WIDTH};
use pong::particle::Particle;
use pong::pong::Side;

const W: i64 = 1280 * PX;
const H: i64 = 720 * PX;

#[test]
fn menu_items_total_is_five() {
    assert_eq!(MenuChoices::items_total(), 5);
    assert_eq!(MENU_ITEMS_TOTAL, 5);
}

#[test]
fn menu_wraps_upward_from_zero() {
    let mut m = Menu::new(0);
    m.advance_menu_choice(1);
    assert_eq!(m.current_menu_choice, MENU_ITEMS_TOTAL - 1);
}

#[test]
fn menu_wraps_downward_from_top() {
    let mut m = Menu::new(MENU_ITEMS_TOTAL - 1);
    m.advance_menu_choice(-1);
    assert_eq!(m.current_menu_choice, 0);
}

#[test]
fn menu_moves_within_range() {
    let mut m = Menu::new(2);
    m.advance_menu_choice(1);
    assert_eq!(m.current_menu_choice, 1);
    m.advance_menu_choice(-1);
    assert_eq!(m.current_menu_choice, 2);
}

#[test]
fn rects_overlap_when_straddling() {
    let a = Rect::new(0, 0, 10 * PX, 10 * PX);
    let b = Rect::new(5 * PX, 5 * PX, 10 * PX, 10 * PX);
    assert!(a.overlaps(&b));
    assert!(b.overlaps(&a));
}

#[test]
fn touching_edges_do_not_overlap() {
    let a = Rect::new(0, 0, 10 * PX, 10 * PX);
    let b = Rect::new(10 * PX, 0, 10 * PX, 10 * PX);
    assert!(!a.overlaps(&b));
    assert!(!b.overlaps(&a));
}

#[test]
fn zero_width_wall_overlapped_only_when_straddled() {
    let wall = Rect::new(0, 0, 0, H);
    let crossing = Rect::new(-2 * PX, 0, 4 * PX, 4 * PX);
    let touching = Rect::new(0, 0, 4 * PX, 4 * PX);
    assert!(crossing.overlaps(&wall));
    assert!(!touching.overlaps(&wall));
}

#[test]
fn new_ball_is_centred_at_full_speed() {
    let b = Ball::new(W, H);
    assert_eq!(b.x, 640 * PX);
    assert_eq!(b.y, 360 * PX);
    assert_eq!(b.radius, BALL_RADIUS);
    assert!(b.dx == BALL_SPEED || b.dx == -BALL_SPEED);
    assert!(b.dy == BALL_SPEED || b.dy == -BALL_SPEED);
}

#[test]
fn new_paddles_sit_against_their_walls() {
    let l = Paddle::new(W, H, Side::Left);
    let r = Paddle::new(W, H, Side::Right);
    assert_eq!(l.rect.x, 0);
    assert_eq!(r.rect.x, W - PADDLE_WIDTH);
    assert_eq!(l.rect.y, (H - PADDLE_HEIGHT) / 2);
    assert_eq!(r.rect.y, l.rect.y);
    assert_eq!(l.rect.w, PADDLE_WIDTH);
    assert_eq!(l.rect.h, PADDLE_HEIGHT);
    assert_eq!(l.dy, PADDLE_SPEED);
    assert!(!l.is_up_holding && !l.is_down_holding);
    assert!(matches!(l.side, Side::Left));
    assert!(matches!(r.side, Side::Right));
}

#[test]
fn new_game_state_is_canonical() {
    let s = GameState::new(W, H);
    assert_eq!(s.dt, TICK_US);
    assert_eq!(s.time_scale, DEFAULT_TIME_SCALE);
    assert!(!s.debug_mode);
    assert!(s.play_sounds);
    assert!(s.show_particles);
    assert!(matches!(s.game_mode, GameMode::Game));
    assert_eq!(s.player1_score, 0);
    assert_eq!(s.player2_score, 0);
    assert_eq!(s.paused, Some(1_200_000));
    assert_eq!(s.walls.len(), 4);
    assert!(matches!(s.walls[0].side, Side::Top));
    assert!(matches!(s.walls[1].side, Side::Left));
    assert!(matches!(s.walls[2].side, Side::Right));
    assert!(matches!(s.walls[3].side, Side::Bottom));
    assert_eq!(s.paddles.len(), 2);
    assert!(matches!(s.paddles[0].side, Side::Left));
    assert!(matches!(s.paddles[1].side, Side::Right));
    assert_eq!(s.menu.current_menu_choice, 0);
    assert!(s.sound_queue.is_empty());
    assert!(!s.quit_requested);
}

#[test]
fn new_game_state_has_twelve_identical_particles() {
    let s = GameState::new(W, H);
    assert_eq!(s.particles.len(), 12);
    let first = &s.particles[0];
    assert!(!first.is_dead);
    assert!(first.frame <= 4);
    assert!(!first.shimmer);
    assert!(first.x >= s.ball.x - 16 * PX && first.x <= s.ball.x + 8 * PX);
    assert!(first.y >= s.ball.y - 16 * PX && first.y <= s.ball.y + 8 * PX);
    for p in &s.particles {
        assert_eq!(p.x, first.x);
        assert_eq!(p.y, first.y);
        assert_eq!(p.frame, first.frame);
        assert_eq!(p.particle_type, first.particle_type);
    }
}

#[test]
fn particle_advance_ages_and_reports_shimmer() {
    let mut p = Particle::new(640 * PX, 360 * PX, false);
    let frame_before = p.frame;
    let shimmered = p.advance(640 * PX, 360 * PX);
    assert_eq!(p.frame, frame_before + 1);
    assert_eq!(shimmered, frame_before % 2 == 0);
    assert!(!p.shimmer);
}

#[test]
fn particle_dies_past_its_lifetime_and_recycles() {
    let mut p = Particle::new(0, 0, false);
    let mut advances = 0;
    while !p.is_dead {
        p.advance(0, 0);
        advances += 1;
        assert!(advances <= 13);
    }
    assert_eq!(p.frame, 13);
    let ball_x = 100 * PX;
    let ball_y = 200 * PX;
    p.advance(ball_x, ball_y);
    assert!(!p.is_dead);
    assert!(p.frame >= 1 && p.frame <= 5);
    assert!(p.x >= ball_x - 16 * PX && p.x <= ball_x + 8 * PX);
    assert!(p.y >= ball_y - 16 * PX && p.y <= ball_y + 8 * PX);
}

#[test]
fn armed_shimmer_is_consumed_on_first_advance() {
    let mut p = Particle::new(0, 0, true);
    let shimmered = p.advance(0, 0);
    assert!(shimmered);
    assert!(!p.shimmer);
}
