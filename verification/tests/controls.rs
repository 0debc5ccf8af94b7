use pong::config::PX;
use pong::game_state::{GameMode, GameState};
use pong::player_control::Key;

const W: i64 = 1280 * PX;
const H: i64 = 720 * PX;

#[test]
fn holding_and_releasing_movement_keys_sets_intent() {
    let mut s = GameState::new(W, H);
    s.key_down_event(Key::W);
    assert!(s.paddles[0].is_up_holding);
    s.key_down_event(Key::S);
    assert!(s.paddles[0].is_down_holding);
    s.key_down_event(Key::Up);
    assert!(s.paddles[1].is_up_holding);
    s.key_down_event(Key::Down);
    assert!(s.paddles[1].is_down_holding);

    s.key_up_event(Key::W);
    assert!(!s.paddles[0].is_up_holding);
    s.key_up_event(Key::S);
    assert!(!s.paddles[0].is_down_holding);
    s.key_up_event(Key::Up);
    assert!(!s.paddles[1].is_up_holding);
    s.key_up_event(Key::Down);
    assert!(!s.paddles[1].is_down_holding);
}

#[test]
fn function_keys_toggle_debug_and_sound() {
    let mut s = GameState::new(W, H);
    s.key_down_event(Key::F1);
    assert!(s.debug_mode);
    s.key_down_event(Key::F1);
    assert!(!s.debug_mode);
    s.key_down_event(Key::F2);
    assert!(!s.play_sounds);
    s.key_down_event(Key::F2);
    assert!(s.play_sounds);
}

#[test]
fn escape_toggles_menu_and_stops_particles() {
    let mut s = GameState::new(W, H);
    s.menu.current_menu_choice = 2;
    s.key_down_event(Key::Escape);
    assert!(matches!(s.game_mode, GameMode::Menu));
    assert!(s.particles.iter().all(|p| p.is_dead));
    // The selection persists across toggles.
    assert_eq!(s.menu.current_menu_choice, 2);
    s.key_down_event(Key::Escape);
    assert!(matches!(s.game_mode, GameMode::Game));
    assert_eq!(s.menu.current_menu_choice, 2);
}

#[test]
fn menu_navigation_wraps() {
    let mut s = GameState::new(W, H);
    s.game_mode = GameMode::Menu;
    s.key_down_event(Key::Up);
    assert_eq!(s.menu.current_menu_choice, 4);
    s.key_down_event(Key::Down);
    assert_eq!(s.menu.current_menu_choice, 0);
    s.key_down_event(Key::Down);
    assert_eq!(s.menu.current_menu_choice, 1);
}

#[test]
fn movement_keys_do_nothing_in_menu_mode() {
    let mut s = GameState::new(W, H);
    s.game_mode = GameMode::Menu;
    s.key_down_event(Key::W);
    assert!(!s.paddles[0].is_up_holding);
    s.key_up_event(Key::Down);
    assert!(!s.paddles[1].is_down_holding);
}

#[test]
fn menu_resume_entry_returns_to_game() {
    let mut s = GameState::new(W, H);
    s.game_mode = GameMode::Menu;
    s.handle_menu_return(0);
    assert!(matches!(s.game_mode, GameMode::Game));
}

#[test]
fn menu_sound_entry_toggles_flag() {
    let mut s = GameState::new(W, H);
    s.game_mode = GameMode::Menu;
    s.handle_menu_return(1);
    assert!(!s.play_sounds);
    assert!(matches!(s.game_mode, GameMode::Menu));
}

#[test]
fn menu_particles_entry_toggles_and_kills() {
    let mut s = GameState::new(W, H);
    s.game_mode = GameMode::Menu;
    s.handle_menu_return(2);
    assert!(!s.show_particles);
    assert!(s.particles.iter().all(|p| p.is_dead));
}

#[test]
fn menu_restart_entry_resets_scores_and_resumes() {
    let mut s = GameState::new(W, H);
    s.player1_score = 4;
    s.player2_score = 9;
    s.game_mode = GameMode::Menu;
    s.handle_menu_return(3);
    assert_eq!(s.player1_score, 0);
    assert_eq!(s.player2_score, 0);
    assert!(matches!(s.game_mode, GameMode::Game));
    assert_eq!(s.paused, Some(1_200_000));
    assert_eq!(s.ball.x, 640 * PX);
}

#[test]
fn menu_quit_entry_requests_quit() {
    let mut s = GameState::new(W, H);
    s.game_mode = GameMode::Menu;
    s.handle_menu_return(4);
    assert!(s.quit_requested);
    assert!(matches!(s.game_mode, GameMode::Menu));
}

#[test]
fn return_key_dispatches_selected_entry() {
    let mut s = GameState::new(W, H);
    s.game_mode = GameMode::Menu;
    s.menu.current_menu_choice = 1;
    s.key_down_event(Key::Return);
    assert!(!s.play_sounds);
}

#[test]
fn other_keys_do_nothing() {
    let mut s = GameState::new(W, H);
    let debug = s.debug_mode;
    let sounds = s.play_sounds;
    s.key_down_event(Key::Other);
    s.key_up_event(Key::Other);
    assert_eq!(s.debug_mode, debug);
    assert_eq!(s.play_sounds, sounds);
    assert!(matches!(s.game_mode, GameMode::Game));
}
