use vstd::prelude::*;

use crate::ball::sign_ok;
use crate::game_state::{all_dead, toggled_menu, GameMode, GameState, GameStateV};
use crate::menu::wrapped_choice;
use crate::paddle::PaddleV;
use crate::pong::reset_applied;

verus! {

/// A key the game reacts to; the host maps anything else to `Other`.
#[derive(Clone, Copy, Debug, PartialEq, Eq, Structural)]
pub enum Key {
    F1,
    F2,
    Escape,
    W,
    S,
    Up,
    Down,
    Return,
    Other,
}

/// The left paddle's position in the paddle vector.
pub const LEFT_PADDLE_INDEX: usize = 0;

/// The right paddle's position in the paddle vector.
pub const RIGHT_PADDLE_INDEX: usize = 1;

/// Paddle `i` with its up-intent flag set to `v`.
pub open spec fn with_up_intent(s: GameStateV, i: int, v: bool) -> GameStateV {
    GameStateV {
        paddles: s.paddles.update(i, PaddleV { is_up_holding: v, ..s.paddles[i] }),
        ..s
    }
}

/// Paddle `i` with its down-intent flag set to `v`.
pub open spec fn with_down_intent(s: GameStateV, i: int, v: bool) -> GameStateV {
    GameStateV {
        paddles: s.paddles.update(i, PaddleV { is_down_holding: v, ..s.paddles[i] }),
        ..s
    }
}

/// What confirming the selected menu entry does: resume, toggle the sound
/// flag, toggle the particle flag (stopping live particles), restart the
/// match and resume, or ask the host to quit.
pub open spec fn menu_return_rel(s: GameStateV, choice: int, s2: GameStateV) -> bool {
    if choice == 0 {
        s2 == toggled_menu(s)
    } else if choice == 1 {
        s2 == (GameStateV { play_sounds: !s.play_sounds, ..s })
    } else if choice == 2 {
        s2 == (GameStateV {
            show_particles: !s.show_particles,
            particles: all_dead(s.particles),
            ..s
        })
    } else if choice == 3 {
        exists|sx: int, sy: int|
            sign_ok(sx) && sign_ok(sy) && s2 == toggled_menu(reset_applied(s, true, sx, sy))
    } else if choice == 4 {
        s2 == (GameStateV { quit_requested: true, ..s })
    } else {
        s2 == s
    }
}

/// What a key press does: in the game, toggles and movement intents; in the
/// menu, navigation, confirmation and closing.
pub open spec fn key_down_rel(s: GameStateV, key: Key, s2: GameStateV) -> bool {
    match s.game_mode {
        GameMode::Game => match key {
            Key::F1 => s2 == (GameStateV { debug_mode: !s.debug_mode, ..s }),
            Key::F2 => s2 == (GameStateV { play_sounds: !s.play_sounds, ..s }),
            Key::Escape => s2 == toggled_menu(s),
            Key::W => s2 == with_up_intent(s, LEFT_PADDLE_INDEX as int, true),
            Key::S => s2 == with_down_intent(s, LEFT_PADDLE_INDEX as int, true),
            Key::Up => s2 == with_up_intent(s, RIGHT_PADDLE_INDEX as int, true),
            Key::Down => s2 == with_down_intent(s, RIGHT_PADDLE_INDEX as int, true),
            _ => s2 == s,
        },
        GameMode::Menu => match key {
            Key::Up => s2 == (GameStateV { menu: wrapped_choice(s.menu, 1), ..s }),
            Key::Down => s2 == (GameStateV { menu: wrapped_choice(s.menu, -1), ..s }),
            Key::Return => menu_return_rel(s, s.menu, s2),
            Key::Escape => s2 == toggled_menu(s),
            _ => s2 == s,
        },
    }
}

/// What a key release does: in the game it clears movement intents; in the
/// menu nothing.
pub open spec fn key_up_rel(s: GameStateV, key: Key, s2: GameStateV) -> bool {
    match s.game_mode {
        GameMode::Game => match key {
            Key::W => s2 == with_up_intent(s, LEFT_PADDLE_INDEX as int, false),
            Key::S => s2 == with_down_intent(s, LEFT_PADDLE_INDEX as int, false),
            Key::Up => s2 == with_up_intent(s, RIGHT_PADDLE_INDEX as int, false),
            Key::Down => s2 == with_down_intent(s, RIGHT_PADDLE_INDEX as int, false),
            _ => s2 == s,
        },
        GameMode::Menu => s2 == s,
    }
}

impl GameState {
    /// Reacts to a key being pressed.
    pub fn key_down_event(&mut self, keycode: Key)
        requires
            old(self).wf(),
        ensures
            final(self).wf(),
            key_down_rel(old(self)@, keycode, final(self)@),
    {
        match self.game_mode {
            GameMode::Game => match keycode {
                Key::F1 => {
                    self.debug_mode = !self.debug_mode;
                    proof {
                        assert(self@ =~= (GameStateV {
                            debug_mode: !old(self)@.debug_mode,
                            ..old(self)@
                        }));
                    }
                },
                Key::F2 => {
                    self.play_sounds = !self.play_sounds;
                    proof {
                        assert(self@ =~= (GameStateV {
                            play_sounds: !old(self)@.play_sounds,
                            ..old(self)@
                        }));
                    }
                },
                Key::Escape => self.toggle_menu(),
                Key::W => self.set_up_intent(LEFT_PADDLE_INDEX, true),
                Key::S => self.set_down_intent(LEFT_PADDLE_INDEX, true),
                Key::Up => self.set_up_intent(RIGHT_PADDLE_INDEX, true),
                Key::Down => self.set_down_intent(RIGHT_PADDLE_INDEX, true),
                _ => (),
            },
            GameMode::Menu => match keycode {
                Key::Up => {
                    self.menu.advance_menu_choice(1);
                    proof {
                        assert(self@ =~= (GameStateV {
                            menu: wrapped_choice(old(self)@.menu, 1),
                            ..old(self)@
                        }));
                    }
                },
                Key::Down => {
                    self.menu.advance_menu_choice(-1);
                    proof {
                        assert(self@ =~= (GameStateV {
                            menu: wrapped_choice(old(self)@.menu, -1),
                            ..old(self)@
                        }));
                    }
                },
                Key::Return => {
                    let choice = self.menu.current_menu_choice;
                    self.handle_menu_return(choice);
                },
                Key::Escape => self.toggle_menu(),
                _ => (),
            },
        }
    }

    /// Reacts to a key being released.
    pub fn key_up_event(&mut self, keycode: Key)
        requires
            old(self).wf(),
        ensures
            final(self).wf(),
            key_up_rel(old(self)@, keycode, final(self)@),
    {
        match self.game_mode {
            GameMode::Game => match keycode {
                Key::W => self.set_up_intent(LEFT_PADDLE_INDEX, false),
                Key::S => self.set_down_intent(LEFT_PADDLE_INDEX, false),
                Key::Up => self.set_up_intent(RIGHT_PADDLE_INDEX, false),
                Key::Down => self.set_down_intent(RIGHT_PADDLE_INDEX, false),
                _ => (),
            },
            _ => (),
        }
    }

    /// Dispatches the confirmed menu entry; see `menu_return_rel`.
    pub fn handle_menu_return(&mut self, current_menu_choice: isize)
        requires
            old(self).wf(),
        ensures
            final(self).wf(),
            menu_return_rel(old(self)@, current_menu_choice as int, final(self)@),
    {
        match current_menu_choice {
            0 => self.toggle_menu(),
            1 => {
                self.play_sounds = !self.play_sounds;
                proof {
                    assert(self@ =~= (GameStateV {
                        play_sounds: !old(self)@.play_sounds,
                        ..old(self)@
                    }));
                }
            },
            2 => {
                self.show_particles = !self.show_particles;
                self.stop_particles();
                proof {
                    assert(self@ =~= (GameStateV {
                        show_particles: !old(self)@.show_particles,
                        particles: all_dead(old(self)@.particles),
                        ..old(self)@
                    }));
                }
            },
            3 => {
                let ghost s0 = self@;
                self.reset_game(true);
                let ghost mid = self@;
                self.toggle_menu();
                proof {
                    let (sx, sy) = choose|sx: int, sy: int|
                        sign_ok(sx) && sign_ok(sy) && mid == reset_applied(s0, true, sx, sy);
                    assert(sign_ok(sx) && sign_ok(sy) && self@ == toggled_menu(
                        reset_applied(s0, true, sx, sy),
                    ));
                }
            },
            4 => {
                self.quit_requested = true;
                proof {
                    assert(self@ =~= (GameStateV { quit_requested: true, ..old(self)@ }));
                }
            },
            _ => (),
        }
    }

    /// Sets the up-intent flag of paddle `i`.
    fn set_up_intent(&mut self, i: usize, v: bool)
        requires
            old(self).wf(),
            i < 2,
        ensures
            final(self).wf(),
            final(self)@ == with_up_intent(old(self)@, i as int, v),
    {
        self.paddles[i].is_up_holding = v;
        proof {
            assert(self@.paddles =~= with_up_intent(old(self)@, i as int, v).paddles);
            assert(self@ =~= with_up_intent(old(self)@, i as int, v));
        }
    }

    /// Sets the down-intent flag of paddle `i`.
    fn set_down_intent(&mut self, i: usize, v: bool)
        requires
            old(self).wf(),
            i < 2,
        ensures
            final(self).wf(),
            final(self)@ == with_down_intent(old(self)@, i as int, v),
    {
        self.paddles[i].is_down_holding = v;
        proof {
            assert(self@.paddles =~= with_down_intent(old(self)@, i as int, v).paddles);
            assert(self@ =~= with_down_intent(old(self)@, i as int, v));
        }
    }
}

} // verus!
