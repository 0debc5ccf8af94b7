use vstd::prelude::*;

use crate::ball::{home_ball, sign_ok, wf_ball, Ball, BallV};
use crate::config::MAX_DIM;
use crate::geometry::Rect;
use crate::menu::{Menu, MENU_ITEMS_TOTAL};
use crate::paddle::{home_paddles, wf_paddle, Paddle, PaddleV, PADDLE_HEIGHT, PADDLE_WIDTH};
use crate::particle::{fresh_ok, fresh_particle, wf_particle, Particle, ParticleType, ParticleV};
use crate::pong::{wall_seq, Side, SoundType, Wall, WallV, GOAL_PAUSE_US};

verus! {

/// The fixed simulation step: one sixtieth of a second, in microseconds.
pub const TICK_US: u64 = 16_667;

/// The neutral time scale, in permille: simulated time passes at wall-clock
/// speed.
pub const DEFAULT_TIME_SCALE: u64 = 1_000;

/// Cap on the time scale (a hundredfold speed-up), so that one scaled step
/// stays within the step bound.
pub const MAX_TIME_SCALE: u64 = 100_000;

/// How many particles live around the ball.
pub const PARTICLE_COUNT: usize = 12;

/// Whether the menu is open (simulation suspended) or the match is running.
#[derive(Clone, Copy, Debug, PartialEq, Eq, Structural)]
pub enum GameMode {
    Menu,
    Game,
}

/// The whole match state: entities, scores, pause countdown, configuration
/// flags, the menu, and the queue of pending sound requests that the audio
/// collaborator drains.
#[derive(Debug)]
pub struct GameState {
    pub dt: u64,
    pub time_scale: u64,
    pub debug_mode: bool,
    pub play_sounds: bool,
    pub show_particles: bool,
    pub game_width: i64,
    pub game_height: i64,
    pub game_mode: GameMode,
    pub ball: Ball,
    pub walls: Vec<Wall>,
    pub paddles: Vec<Paddle>,
    pub paused: Option<u64>,
    pub player1_score: u64,
    pub player2_score: u64,
    pub particles: Vec<Particle>,
    pub menu: Menu,
    pub sound_queue: Vec<SoundType>,
    pub quit_requested: bool,
}

/// Ghost mirror of `GameState`: positions and durations as unbounded
/// integers, collections as sequences, the menu as its selected index.
#[verifier::ext_equal]
pub struct GameStateV {
    pub dt: int,
    pub time_scale: int,
    pub debug_mode: bool,
    pub play_sounds: bool,
    pub show_particles: bool,
    pub game_width: int,
    pub game_height: int,
    pub game_mode: GameMode,
    pub ball: BallV,
    pub walls: Seq<WallV>,
    pub paddles: Seq<PaddleV>,
    pub paused: Option<int>,
    pub player1_score: int,
    pub player2_score: int,
    pub particles: Seq<ParticleV>,
    pub menu: int,
    pub sounds: Seq<SoundType>,
    pub quit_requested: bool,
}

impl View for GameState {
    type V = GameStateV;

    open spec fn view(&self) -> GameStateV {
        GameStateV {
            dt: self.dt as int,
            time_scale: self.time_scale as int,
            debug_mode: self.debug_mode,
            play_sounds: self.play_sounds,
            show_particles: self.show_particles,
            game_width: self.game_width as int,
            game_height: self.game_height as int,
            game_mode: self.game_mode,
            ball: self.ball@,
            walls: self.walls@.map_values(|w: Wall| w@),
            paddles: self.paddles@.map_values(|p: Paddle| p@),
            paused: match self.paused {
                Option::Some(p) => Option::Some(p as int),
                Option::None => Option::None,
            },
            player1_score: self.player1_score as int,
            player2_score: self.player2_score as int,
            particles: self.particles@.map_values(|p: Particle| p@),
            menu: self.menu.current_menu_choice as int,
            sounds: self.sound_queue@,
            quit_requested: self.quit_requested,
        }
    }
}

/// Well-formedness of the match state: the playfield holds the paddles, the
/// four walls are the canonical boundary, both paddles sit within the
/// vertical bounds on their own sides, the ball and every particle are within
/// their machine bounds, the menu index is in range, and the tick and time
/// scale are within theirs.
pub open spec fn wf_state(s: GameStateV) -> bool {
    &&& PADDLE_WIDTH <= s.game_width <= MAX_DIM
    &&& PADDLE_HEIGHT <= s.game_height <= MAX_DIM
    &&& s.dt == TICK_US
    &&& 0 <= s.time_scale <= MAX_TIME_SCALE
    &&& wf_ball(s.ball)
    &&& s.paddles.len() == 2
    &&& s.paddles[0].side is Left
    &&& s.paddles[1].side is Right
    &&& wf_paddle(s.paddles[0], s.game_height)
    &&& wf_paddle(s.paddles[1], s.game_height)
    &&& s.walls == wall_seq(s.game_width, s.game_height)
    &&& 0 <= s.menu < MENU_ITEMS_TOTAL
    &&& forall|j: int| 0 <= j < s.particles.len() ==> wf_particle(#[trigger] s.particles[j])
}

/// What `GameState::new` builds: a fresh match on a `w` by `h` playfield,
/// running, with zero scores, the start-of-match grace period armed, the menu
/// on its first entry, and twelve copies of one fresh particle around the
/// ball.
pub open spec fn new_rel(w: int, h: int, s: GameStateV) -> bool {
    &&& s.dt == TICK_US
    &&& s.time_scale == DEFAULT_TIME_SCALE
    &&& s.debug_mode == false
    &&& s.play_sounds == true
    &&& s.show_particles == true
    &&& s.game_width == w
    &&& s.game_height == h
    &&& s.game_mode is Game
    &&& exists|sx: int, sy: int| sign_ok(sx) && sign_ok(sy) && s.ball == home_ball(w, h, sx, sy)
    &&& s.walls == wall_seq(w, h)
    &&& s.paddles == home_paddles(w, h)
    &&& s.paused == Option::Some(GOAL_PAUSE_US as int)
    &&& s.player1_score == 0
    &&& s.player2_score == 0
    &&& s.particles.len() == PARTICLE_COUNT
    &&& exists|ox: int, oy: int, fr: int, ty: ParticleType|
        #[trigger] fresh_ok(ox, oy, fr, ty) && forall|j: int|
            0 <= j < s.particles.len() ==> s.particles[j] == fresh_particle(
                s.ball.x,
                s.ball.y,
                ox,
                oy,
                fr,
                ty,
                false,
            )
    &&& s.menu == 0
    &&& s.sounds == Seq::<SoundType>::empty()
    &&& s.quit_requested == false
}

/// Every particle marked dead, everything else about each kept.
pub open spec fn all_dead(ps: Seq<ParticleV>) -> Seq<ParticleV> {
    ps.map_values(|p: ParticleV| ParticleV { is_dead: true, ..p })
}

/// What `toggle_menu` does: flips the mode, kills the live particles, and
/// keeps everything else, the selected menu index included.
pub open spec fn toggled_menu(s: GameStateV) -> GameStateV {
    GameStateV {
        game_mode: match s.game_mode {
            GameMode::Menu => GameMode::Game,
            GameMode::Game => GameMode::Menu,
        },
        particles: all_dead(s.particles),
        ..s
    }
}

impl GameState {
    pub open spec fn wf(&self) -> bool {
        wf_state(self@)
    }

    /// A fresh match on a playfield of the given size, in micro-pixels.
    pub fn new(game_width: i64, game_height: i64) -> (s: GameState)
        requires
            PADDLE_WIDTH <= game_width <= MAX_DIM,
            PADDLE_HEIGHT <= game_height <= MAX_DIM,
        ensures
            s.wf(),
            new_rel(game_width as int, game_height as int, s@),
    {
        // Create the paddles, left first: input handling and collision
        // response index them by side.
        let left_paddle = Paddle::new(game_width, game_height, Side::Left);
        let right_paddle = Paddle::new(game_width, game_height, Side::Right);
        let mut paddles: Vec<Paddle> = Vec::new();
        paddles.push(left_paddle);
        paddles.push(right_paddle);

        // The four boundary walls, in the order the simulation tests them.
        let mut walls: Vec<Wall> = Vec::new();
        walls.push(Wall::new(Rect::new(0, 0, game_width, 0), Side::Top));
        walls.push(Wall::new(Rect::new(0, 0, 0, game_height), Side::Left));
        walls.push(Wall::new(Rect::new(game_width, 0, 0, game_height), Side::Right));
        walls.push(Wall::new(Rect::new(0, game_height, game_width, 0), Side::Bottom));

        // Create the ball.
        let ball = Ball::new(game_width, game_height);

        // Initialize the menu.
        let menu = Menu::new(0);

        // Twelve copies of one fresh particle around the ball.
        let particle = Particle::new(ball.x, ball.y, false);
        let mut particles: Vec<Particle> = Vec::new();
        let mut i: usize = 0;
        while i < PARTICLE_COUNT
            invariant
                i <= PARTICLE_COUNT,
                particles@.len() == i,
                forall|j: int| 0 <= j < i ==> particles@[j] == particle,
            decreases PARTICLE_COUNT - i,
        {
            particles.push(particle);
            i += 1;
        }

        let s = GameState {
            dt: TICK_US,
            time_scale: DEFAULT_TIME_SCALE,
            debug_mode: false,
            play_sounds: true,
            show_particles: true,
            game_width,
            game_height,
            game_mode: GameMode::Game,
            ball,
            walls,
            paddles,
            paused: Option::Some(GOAL_PAUSE_US),
            player1_score: 0,
            player2_score: 0,
            particles,
            menu,
            sound_queue: Vec::new(),
            quit_requested: false,
        };
        proof {
            let w = game_width as int;
            let h = game_height as int;
            assert(s@.walls =~= wall_seq(w, h));
            assert(s@.paddles =~= home_paddles(w, h));
            let (ox, oy, fr, ty) = choose|ox: int, oy: int, fr: int, ty: ParticleType|
                fresh_ok(ox, oy, fr, ty) && particle@ == fresh_particle(
                    ball@.x,
                    ball@.y,
                    ox,
                    oy,
                    fr,
                    ty,
                    false,
                );
            assert(fresh_ok(ox, oy, fr, ty) && forall|j: int|
                0 <= j < s@.particles.len() ==> s@.particles[j] == fresh_particle(
                    s@.ball.x,
                    s@.ball.y,
                    ox,
                    oy,
                    fr,
                    ty,
                    false,
                ));
        }
        s
    }

    /// Opens or closes the menu: flips the mode, reinitializes the menu to
    /// its last selected index, and stops the live particles.
    pub fn toggle_menu(&mut self)
        requires
            old(self).wf(),
        ensures
            final(self).wf(),
            final(self)@ == toggled_menu(old(self)@),
    {
        match self.game_mode {
            GameMode::Game => {
                self.menu = Menu::new(self.menu.current_menu_choice);
                self.game_mode = GameMode::Menu;
            }
            GameMode::Menu => {
                self.menu = Menu::new(self.menu.current_menu_choice);
                self.game_mode = GameMode::Game;
            }
        }

        self.stop_particles();
        proof {
            assert(self@ =~= toggled_menu(old(self)@));
        }
    }

    /// Speeds simulated time up by half again, saturating at the cap.
    pub fn time_scale_up(&mut self)
        requires
            old(self).wf(),
        ensures
            final(self).wf(),
            final(self)@ == (GameStateV {
                time_scale: if old(self)@.time_scale * 3 / 2 <= MAX_TIME_SCALE {
                    old(self)@.time_scale * 3 / 2
                } else {
                    MAX_TIME_SCALE as int
                },
                ..old(self)@
            }),
    {
        let t = self.time_scale * 3 / 2;
        self.time_scale = if t <= MAX_TIME_SCALE {
            t
        } else {
            MAX_TIME_SCALE
        };
        proof {
            assert(self@ =~= (GameStateV { time_scale: self@.time_scale, ..old(self)@ }));
        }
    }

    /// Slows simulated time down by a third.
    pub fn time_scale_down(&mut self)
        requires
            old(self).wf(),
        ensures
            final(self).wf(),
            final(self)@ == (GameStateV {
                time_scale: old(self)@.time_scale * 2 / 3,
                ..old(self)@
            }),
    {
        self.time_scale = self.time_scale * 2 / 3;
        proof {
            assert(self@ =~= (GameStateV { time_scale: self@.time_scale, ..old(self)@ }));
        }
    }

    /// Restores the neutral time scale.
    pub fn time_scale_reset(&mut self)
        requires
            old(self).wf(),
        ensures
            final(self).wf(),
            final(self)@ == (GameStateV { time_scale: DEFAULT_TIME_SCALE as int, ..old(self)@ }),
    {
        self.time_scale = DEFAULT_TIME_SCALE;
        proof {
            assert(self@ =~= (GameStateV { time_scale: DEFAULT_TIME_SCALE as int, ..old(self)@ }));
        }
    }

    /// Freezes simulated time entirely.
    pub fn time_scale_freeze(&mut self)
        requires
            old(self).wf(),
        ensures
            final(self).wf(),
            final(self)@ == (GameStateV { time_scale: 0, ..old(self)@ }),
    {
        self.time_scale = 0;
        proof {
            assert(self@ =~= (GameStateV { time_scale: 0, ..old(self)@ }));
        }
    }

    /// Marks every particle dead; the renderer recycles dead particles when
    /// particle display is on.
    pub fn stop_particles(&mut self)
        ensures
            final(self)@ == (GameStateV { particles: all_dead(old(self)@.particles), ..old(
                self,
            )@ }),
    {
        let mut i: usize = 0;
        while i < self.particles.len()
            invariant
                i <= self.particles@.len(),
                self.particles@.len() == old(self).particles@.len(),
                self@ == (GameStateV { particles: self@.particles, ..old(self)@ }),
                forall|j: int|
                    0 <= j < i ==> self.particles@[j] == (Particle {
                        is_dead: true,
                        ..old(self).particles@[j]
                    }),
                forall|j: int|
                    i <= j < self.particles@.len() ==> self.particles@[j] == old(
                        self,
                    ).particles@[j],
            decreases self.particles@.len() - i,
        {
            self.particles[i].is_dead = true;
            i += 1;
        }
        proof {
            assert(self@.particles =~= all_dead(old(self)@.particles));
            assert(self@ =~= (GameStateV { particles: all_dead(old(self)@.particles), ..old(
                self,
            )@ }));
        }
    }
}

} // verus!
