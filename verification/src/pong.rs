use vstd::prelude::*;

use crate::ball::{home_ball, sign_ok, wf_ball, Ball, BallV};
use crate::config::{COORD_LIMIT, MAX_DIM, MAX_SPEED, MAX_STEP_US};
use crate::game_state::{GameMode, GameState, GameStateV, MAX_TIME_SCALE, TICK_US};
use crate::geometry::{rect_bounded, rects_overlap, Rect, RectV};
use crate::paddle::{home_paddles, wf_paddle, Paddle, PaddleV};

verus! {

/// How long motion stays suspended after a goal or a round reset, in
/// microseconds.
pub const GOAL_PAUSE_US: u64 = 1_200_000;

/// Which boundary of the playfield an entity is attached to.
#[derive(Clone, Copy, Debug, PartialEq, Eq, Structural)]
pub enum Side {
    Left,
    Right,
    Top,
    Bottom,
}

/// A sound the simulation asks the audio collaborator to play.
#[derive(Clone, Copy, Debug, PartialEq, Eq, Structural)]
pub enum SoundType {
    Goal,
    Pad,
    Wall,
}

/// A static boundary of the playfield: a rectangle and its side tag. The
/// left and right walls are the goal lines.
#[derive(Clone, Copy, Debug)]
pub struct Wall {
    pub rect: Rect,
    pub side: Side,
}

/// Ghost mirror of `Wall`.
#[verifier::ext_equal]
pub struct WallV {
    pub rect: RectV,
    pub side: Side,
}

impl View for Wall {
    type V = WallV;

    open spec fn view(&self) -> WallV {
        WallV { rect: self.rect@, side: self.side }
    }
}

impl Wall {
    pub fn new(rect: Rect, side: Side) -> (w: Wall)
        ensures
            w@ == (WallV { rect: rect@, side: side }),
    {
        Wall { rect, side }
    }
}

/// The boundary rectangle on the given side of a `w` by `h` playfield:
/// left/right walls are zero-width segments at `x = 0` and `x = w`,
/// top/bottom walls zero-height segments at `y = 0` and `y = h`.
pub open spec fn wall_rect(side: Side, w: int, h: int) -> RectV {
    match side {
        Side::Top => RectV { x: 0, y: 0, w: w, h: 0 },
        Side::Left => RectV { x: 0, y: 0, w: 0, h: h },
        Side::Right => RectV { x: w, y: 0, w: 0, h: h },
        Side::Bottom => RectV { x: 0, y: h, w: w, h: 0 },
    }
}

/// The four walls of the playfield, in the order they are built and tested.
pub open spec fn wall_seq(w: int, h: int) -> Seq<WallV> {
    seq![
        WallV { rect: wall_rect(Side::Top, w, h), side: Side::Top },
        WallV { rect: wall_rect(Side::Left, w, h), side: Side::Left },
        WallV { rect: wall_rect(Side::Right, w, h), side: Side::Right },
        WallV { rect: wall_rect(Side::Bottom, w, h), side: Side::Bottom },
    ]
}

/// The vertical direction a paddle moves in, from its intent flags: both or
/// neither held means no movement, up alone means `+1`, down alone `-1`.
pub open spec fn paddle_direction(p: PaddleV) -> int {
    if p.is_up_holding && p.is_down_holding {
        0
    } else if p.is_up_holding {
        1
    } else if p.is_down_holding {
        -1
    } else {
        0
    }
}

/// One movement step of a paddle over `t` microseconds: integrate the intent
/// direction at the paddle's speed, then clamp against the top wall and then
/// the bottom wall. Clamping is a hard stop, not a bounce.
pub open spec fn paddle_stepped(p: PaddleV, game_h: int, t: int) -> PaddleV {
    let y1 = p.rect.y - p.dy * t * paddle_direction(p);
    let y2 = if y1 <= 0 {
        0
    } else {
        y1
    };
    let y3 = if y2 + p.rect.h >= game_h {
        game_h - p.rect.h
    } else {
        y2
    };
    PaddleV { rect: RectV { y: y3, ..p.rect }, ..p }
}

/// Coordinates saturate at `COORD_LIMIT`, a machine bound far outside any
/// playfield; within it, integration is plain addition.
pub open spec fn clip_coord(x: int) -> int {
    if x > COORD_LIMIT {
        COORD_LIMIT as int
    } else if x < -COORD_LIMIT {
        -COORD_LIMIT as int
    } else {
        x
    }
}

/// One movement step of the ball over `t` microseconds.
pub open spec fn ball_integrated(b: BallV, t: int) -> BallV {
    BallV { x: clip_coord(b.x + b.dx * t), y: clip_coord(b.y + b.dy * t), ..b }
}

/// The ball's bounding square of side `2 * radius`, used for every collision
/// test of a step.
pub open spec fn ball_box(b: BallV) -> RectV {
    RectV { x: b.x - b.radius, y: b.y - b.radius, w: 2 * b.radius, h: 2 * b.radius }
}

/// The part of the match state that the collision phases of a step mutate.
#[verifier::ext_equal]
pub struct PhaseV {
    pub ball: BallV,
    pub paddles: Seq<PaddleV>,
    pub player1_score: int,
    pub player2_score: int,
    pub paused: Option<int>,
    pub sounds: Seq<SoundType>,
}

/// The sound requests one event emits: one, or none when sounds are off.
pub open spec fn emit(play: bool, k: SoundType) -> Seq<SoundType> {
    if play {
        seq![k]
    } else {
        Seq::empty()
    }
}

/// The response to the ball's bounding square overlapping the given wall.
/// Top and bottom walls reflect: the ball is clamped flush to the wall and
/// its vertical velocity inverted. Left and right walls are goal lines: the
/// opposing player scores, and the round resets — ball recreated at the
/// centre with direction signs `(sx, sy)`, paddles recreated at home, and the
/// pause countdown armed.
pub open spec fn apply_wall_hit(
    ph: PhaseV,
    side: Side,
    w: int,
    h: int,
    play: bool,
    sx: int,
    sy: int,
) -> PhaseV {
    match side {
        Side::Top => PhaseV {
            ball: BallV { y: ph.ball.radius, dy: -ph.ball.dy, ..ph.ball },
            sounds: ph.sounds + emit(play, SoundType::Wall),
            ..ph
        },
        Side::Bottom => PhaseV {
            ball: BallV { y: h - ph.ball.radius, dy: -ph.ball.dy, ..ph.ball },
            sounds: ph.sounds + emit(play, SoundType::Wall),
            ..ph
        },
        Side::Left => PhaseV {
            ball: home_ball(w, h, sx, sy),
            paddles: home_paddles(w, h),
            player2_score: ph.player2_score + 1,
            paused: Option::Some(GOAL_PAUSE_US as int),
            sounds: ph.sounds + emit(play, SoundType::Goal),
            ..ph
        },
        Side::Right => PhaseV {
            ball: home_ball(w, h, sx, sy),
            paddles: home_paddles(w, h),
            player1_score: ph.player1_score + 1,
            paused: Option::Some(GOAL_PAUSE_US as int),
            sounds: ph.sounds + emit(play, SoundType::Goal),
            ..ph
        },
    }
}

/// One wall test: the response applies exactly when the stale bounding
/// square `bbox` overlaps the wall.
pub open spec fn wall_pass(
    ph: PhaseV,
    bbox: RectV,
    side: Side,
    w: int,
    h: int,
    play: bool,
    sx: int,
    sy: int,
) -> PhaseV {
    if rects_overlap(bbox, wall_rect(side, w, h)) {
        apply_wall_hit(ph, side, w, h, play, sx, sy)
    } else {
        ph
    }
}

/// One paddle test: when the stale bounding square overlaps paddle `i`, the
/// ball is pushed flush against the paddle's front edge, its horizontal
/// velocity inverted, and a pad sound requested. The vertical velocity is
/// never touched: the bounce is flat.
pub open spec fn paddle_pass(ph: PhaseV, bbox: RectV, i: int, play: bool) -> PhaseV {
    let pad = ph.paddles[i];
    if rects_overlap(bbox, pad.rect) {
        PhaseV {
            ball: BallV {
                x: match pad.side {
                    Side::Left => pad.rect.x + pad.rect.w + ph.ball.radius,
                    Side::Right => pad.rect.x - ph.ball.radius,
                    _ => ph.ball.x,
                },
                dx: -ph.ball.dx,
                ..ph.ball
            },
            sounds: ph.sounds + emit(play, SoundType::Pad),
            ..ph
        }
    } else {
        ph
    }
}

/// The movement phase of a step: both paddles integrate and clamp, the ball
/// integrates. No sounds yet, scores and pause carried over.
pub open spec fn motion_phase(s: GameStateV, t: int) -> PhaseV {
    PhaseV {
        ball: ball_integrated(s.ball, t),
        paddles: seq![
            paddle_stepped(s.paddles[0], s.game_height, t),
            paddle_stepped(s.paddles[1], s.game_height, t),
        ],
        player1_score: s.player1_score,
        player2_score: s.player2_score,
        paused: s.paused,
        sounds: Seq::empty(),
    }
}

/// The collision phase: the four walls in construction order, then the two
/// paddles, all tested against the one stale bounding square `bbox`.
pub open spec fn collision_phase(
    ph: PhaseV,
    bbox: RectV,
    w: int,
    h: int,
    play: bool,
    sx: int,
    sy: int,
) -> PhaseV {
    let ph1 = wall_pass(ph, bbox, Side::Top, w, h, play, sx, sy);
    let ph2 = wall_pass(ph1, bbox, Side::Left, w, h, play, sx, sy);
    let ph3 = wall_pass(ph2, bbox, Side::Right, w, h, play, sx, sy);
    let ph4 = wall_pass(ph3, bbox, Side::Bottom, w, h, play, sx, sy);
    let ph5 = paddle_pass(ph4, bbox, 0, play);
    paddle_pass(ph5, bbox, 1, play)
}

/// The match state with the phase-mutable part replaced and the emitted
/// sound requests appended to the queue.
pub open spec fn with_phase(s: GameStateV, ph: PhaseV) -> GameStateV {
    GameStateV {
        ball: ph.ball,
        paddles: ph.paddles,
        player1_score: ph.player1_score,
        player2_score: ph.player2_score,
        paused: ph.paused,
        sounds: s.sounds + ph.sounds,
        ..s
    }
}

/// One full running step of duration `t`, with `(sx, sy)` the direction
/// signs of the ball recreated by the last round reset of the step, if any.
pub open spec fn sim_stepped(s: GameStateV, t: int, sx: int, sy: int) -> GameStateV {
    let ph0 = motion_phase(s, t);
    let bbox = ball_box(ph0.ball);
    with_phase(s, collision_phase(ph0, bbox, s.game_width, s.game_height, s.play_sounds, sx, sy))
}

/// The phase-mutable part of a match state, with no sounds emitted yet.
pub open spec fn phase_of(g: GameStateV) -> PhaseV {
    PhaseV {
        ball: g.ball,
        paddles: g.paddles,
        player1_score: g.player1_score,
        player2_score: g.player2_score,
        paused: g.paused,
        sounds: Seq::empty(),
    }
}

/// The match state after one wall test against the stale bounding square.
pub open spec fn wall_passed_state(
    g: GameStateV,
    bbox: RectV,
    side: Side,
    sx: int,
    sy: int,
) -> GameStateV {
    with_phase(
        g,
        wall_pass(phase_of(g), bbox, side, g.game_width, g.game_height, g.play_sounds, sx, sy),
    )
}

/// The match state after one paddle test against the stale bounding square.
pub open spec fn paddle_passed_state(g: GameStateV, bbox: RectV, i: int) -> GameStateV {
    with_phase(g, paddle_pass(phase_of(g), bbox, i, g.play_sounds))
}

/// Stepping a state that matches an accumulated phase by one wall test
/// extends the accumulated phase by the same test.
proof fn lemma_wall_compose(
    s0: GameStateV,
    ph: PhaseV,
    g: GameStateV,
    bbox: RectV,
    side: Side,
    sx: int,
    sy: int,
)
    requires
        g == with_phase(s0, ph),
    ensures
        wall_passed_state(g, bbox, side, sx, sy) == with_phase(
            s0,
            wall_pass(ph, bbox, side, s0.game_width, s0.game_height, s0.play_sounds, sx, sy),
        ),
{
    let e = wall_pass(
        phase_of(g),
        bbox,
        side,
        g.game_width,
        g.game_height,
        g.play_sounds,
        sx,
        sy,
    ).sounds;
    let f = wall_pass(ph, bbox, side, s0.game_width, s0.game_height, s0.play_sounds, sx, sy).sounds;
    assert(g.sounds + e =~= s0.sounds + f);
    assert(wall_passed_state(g, bbox, side, sx, sy) =~= with_phase(
        s0,
        wall_pass(ph, bbox, side, s0.game_width, s0.game_height, s0.play_sounds, sx, sy),
    ));
}

/// Stepping a state that matches an accumulated phase by one paddle test
/// extends the accumulated phase by the same test.
proof fn lemma_paddle_compose(s0: GameStateV, ph: PhaseV, g: GameStateV, bbox: RectV, i: int)
    requires
        g == with_phase(s0, ph),
    ensures
        paddle_passed_state(g, bbox, i) == with_phase(
            s0,
            paddle_pass(ph, bbox, i, s0.play_sounds),
        ),
{
    let e = paddle_pass(phase_of(g), bbox, i, g.play_sounds).sounds;
    let f = paddle_pass(ph, bbox, i, s0.play_sounds).sounds;
    assert(g.sounds + e =~= s0.sounds + f);
    assert(paddle_passed_state(g, bbox, i) =~= with_phase(
        s0,
        paddle_pass(ph, bbox, i, s0.play_sounds),
    ));
}

/// An active pause countdown decremented by the real frame delta: it expires
/// once the delta exceeds what remains.
pub open spec fn pause_ticked(p: int, delta: int) -> Option<int> {
    if delta <= p {
        Option::Some(p - delta)
    } else {
        Option::None
    }
}

/// How one call of `simulate` with step `t` and real frame delta `delta`
/// transforms the match state. While the menu is open nothing changes; while
/// a pause countdown is active only the countdown ticks; otherwise a full
/// step applies, with the ball's direction signs drawn at random if a goal
/// resets the round.
pub open spec fn sim_rel(s: GameStateV, t: int, delta: int, s2: GameStateV) -> bool {
    if s.game_mode is Menu {
        s2 == s
    } else if s.paused is Some {
        s2 == (GameStateV { paused: pause_ticked(s.paused->0, delta), ..s })
    } else {
        exists|sx: int, sy: int| sign_ok(sx) && sign_ok(sy) && s2 == sim_stepped(s, t, sx, sy)
    }
}

/// The simulated duration of one driver step of `step` microseconds at the
/// given permille time scale.
pub open spec fn scaled_step(step: int, time_scale: int) -> int {
    step * time_scale / 1000
}

/// The frame time one driver step consumes: the fixed tick `dt`, or the
/// whole remainder when it is shorter.
pub open spec fn step_of(s: GameStateV, remaining: int) -> int {
    let d = if s.dt < 1 {
        1
    } else {
        s.dt
    };
    if remaining < d {
        remaining
    } else {
        d
    }
}

/// A trace of one `update` call with real frame time `frame`: `states[k]`
/// are the match states between driver steps and `rems[k]` the frame time
/// still to consume at each. Each step simulates the scaled clamped step and
/// consumes it from the remainder; every step's pause tick uses the whole
/// real frame delta; the last remainder is exhausted.
pub open spec fn update_chain(states: Seq<GameStateV>, rems: Seq<int>, frame: int) -> bool {
    &&& states.len() == rems.len()
    &&& states.len() >= 1
    &&& rems[states.len() - 1] <= 0
    &&& forall|k: int| 0 <= k < states.len() - 1 ==> #[trigger] rems[k] > 0
    &&& forall|k: int|
        0 <= k < states.len() - 1 ==> sim_rel(
            #[trigger] states[k],
            scaled_step(step_of(states[k], rems[k]), states[k].time_scale),
            frame,
            states[k + 1],
        ) && rems[k + 1] == rems[k] - step_of(states[k], rems[k])
}

/// What `reset_game` does, given the drawn direction signs: ball recreated
/// at the centre, paddles recreated at home on their own sides, the pause
/// countdown armed, and the scores reset to zero exactly when asked.
pub open spec fn reset_applied(s: GameStateV, reset_score: bool, sx: int, sy: int) -> GameStateV {
    GameStateV {
        ball: home_ball(s.game_width, s.game_height, sx, sy),
        paddles: home_paddles(s.game_width, s.game_height),
        paused: Option::Some(GOAL_PAUSE_US as int),
        player1_score: if reset_score {
            0
        } else {
            s.player1_score
        },
        player2_score: if reset_score {
            0
        } else {
            s.player2_score
        },
        ..s
    }
}

/// `reset_game` up to the randomly drawn direction signs of the fresh ball.
pub open spec fn reset_rel(s: GameStateV, reset_score: bool, s2: GameStateV) -> bool {
    exists|sx: int, sy: int|
        sign_ok(sx) && sign_ok(sy) && s2 == reset_applied(s, reset_score, sx, sy)
}

/// One movement step of a paddle; see `paddle_stepped`.
fn advance_paddle(p: Paddle, game_height: i64, time: u64) -> (p2: Paddle)
    requires
        wf_paddle(p@, game_height as int),
        0 < game_height <= MAX_DIM,
        time <= MAX_STEP_US,
    ensures
        p2@ == paddle_stepped(p@, game_height as int, time as int),
        wf_paddle(p2@, game_height as int),
{
    proof {
        assert(0 <= p.dy * (time as i64) <= MAX_SPEED * (MAX_STEP_US as i64))
            by (nonlinear_arith)
            requires
                0 <= p.dy <= MAX_SPEED,
                0 <= time as i64 <= MAX_STEP_US as i64,
        ;
    }
    let distance: i64 = p.dy * (time as i64);

    let direction_value: i64 = if p.is_up_holding && p.is_down_holding {
        0
    } else if p.is_up_holding {
        1
    } else if p.is_down_holding {
        -1
    } else {
        0
    };

    proof {
        assert(-distance <= distance * direction_value <= distance) by (nonlinear_arith)
            requires
                0 <= distance,
                -1 <= direction_value <= 1,
        ;
    }

    // Update paddle position.
    let mut y: i64 = p.rect.y - distance * direction_value;

    // Paddle collides with top wall.
    if y <= 0 {
        y = 0;
    }

    // Paddle collides with bottom wall.
    if y + p.rect.h >= game_height {
        y = game_height - p.rect.h;
    }

    Paddle { rect: Rect { y, ..p.rect }, ..p }
}

/// One movement step of the ball; see `ball_integrated`.
fn integrate_ball(b: Ball, time: u64) -> (b2: Ball)
    requires
        wf_ball(b@),
        time <= MAX_STEP_US,
    ensures
        b2@ == ball_integrated(b@, time as int),
        wf_ball(b2@),
{
    let t = time as i64;

    proof {
        assert(-(MAX_SPEED * (MAX_STEP_US as i64)) <= b.dx * t <= MAX_SPEED * (
        MAX_STEP_US as i64)) by (nonlinear_arith)
            requires
                -MAX_SPEED <= b.dx <= MAX_SPEED,
                0 <= t <= MAX_STEP_US as i64,
        ;
        assert(-(MAX_SPEED * (MAX_STEP_US as i64)) <= b.dy * t <= MAX_SPEED * (
        MAX_STEP_US as i64)) by (nonlinear_arith)
            requires
                -MAX_SPEED <= b.dy <= MAX_SPEED,
                0 <= t <= MAX_STEP_US as i64,
        ;
    }

    let mut x: i64 = b.x + b.dx * t;
    if x > COORD_LIMIT {
        x = COORD_LIMIT;
    } else if x < -COORD_LIMIT {
        x = -COORD_LIMIT;
    }

    let mut y: i64 = b.y + b.dy * t;
    if y > COORD_LIMIT {
        y = COORD_LIMIT;
    } else if y < -COORD_LIMIT {
        y = -COORD_LIMIT;
    }

    Ball { x, y, ..b }
}

/// The ball's bounding square; see `ball_box`.
fn bounding_box(b: &Ball) -> (r: Rect)
    requires
        wf_ball(b@),
    ensures
        r@ == ball_box(b@),
        rect_bounded(r@),
{
    Rect { x: b.x - b.radius, y: b.y - b.radius, w: 2 * b.radius, h: 2 * b.radius }
}

impl GameState {
    /// Queues a sound request for the audio collaborator, unless sounds are
    /// switched off.
    pub fn play_sound(&mut self, sound_type: SoundType)
        ensures
            final(self)@ == (GameStateV {
                sounds: old(self)@.sounds + emit(old(self).play_sounds, sound_type),
                ..old(self)@
            }),
    {
        if self.play_sounds {
            self.sound_queue.push(sound_type);
        }
        proof {
            assert(self@.sounds =~= old(self)@.sounds + emit(old(self).play_sounds, sound_type));
            assert(self@ =~= (GameStateV {
                sounds: old(self)@.sounds + emit(old(self).play_sounds, sound_type),
                ..old(self)@
            }));
        }
    }

    /// Hands the queued sound requests over and empties the queue; the audio
    /// collaborator plays them.
    pub fn take_sounds(&mut self) -> (sounds: Vec<SoundType>)
        ensures
            sounds@ == old(self)@.sounds,
            final(self)@ == (GameStateV { sounds: Seq::empty(), ..old(self)@ }),
    {
        let mut out: Vec<SoundType> = Vec::new();
        core::mem::swap(&mut self.sound_queue, &mut out);
        proof {
            assert(self@ =~= (GameStateV { sounds: Seq::empty(), ..old(self)@ }));
        }
        out
    }

    /// Advances the simulation by the real elapsed frame time `frame_time`
    /// (in microseconds): repeatedly simulates a fixed step of `dt`, scaled
    /// by the time scale, until the accumulated time is exhausted, passing
    /// the final partial remainder as a shorter step. This decouples
    /// simulation determinism from variable frame rates.
    pub fn update(&mut self, frame_time: u64)
        requires
            old(self).wf(),
            old(self).player1_score + frame_time < u64::MAX,
            old(self).player2_score + frame_time < u64::MAX,
        ensures
            final(self).wf(),
            exists|states: Seq<GameStateV>, rems: Seq<int>|
                #[trigger] update_chain(states, rems, frame_time as int) && states.first() == old(
                    self,
                )@ && states.last() == final(self)@ && rems.first() == frame_time as int,
    {
        let ghost s0 = old(self)@;
        let mut remaining = frame_time;

        let ghost mut states: Seq<GameStateV> = seq![s0];
        let ghost mut rems: Seq<int> = seq![frame_time as int];

        while remaining > 0
            invariant
                self.wf(),
                remaining <= frame_time,
                self.player1_score <= s0.player1_score + (frame_time - remaining),
                self.player2_score <= s0.player2_score + (frame_time - remaining),
                s0.player1_score + frame_time < u64::MAX,
                s0.player2_score + frame_time < u64::MAX,
                states.len() == rems.len(),
                states.len() >= 1,
                states.first() == s0,
                rems.first() == frame_time as int,
                states.last() == self@,
                rems.last() == remaining as int,
                forall|k: int| 0 <= k < states.len() - 1 ==> #[trigger] rems[k] > 0,
                forall|k: int|
                    0 <= k < states.len() - 1 ==> sim_rel(
                        #[trigger] states[k],
                        scaled_step(step_of(states[k], rems[k]), states[k].time_scale),
                        frame_time as int,
                        states[k + 1],
                    ) && rems[k + 1] == rems[k] - step_of(states[k], rems[k]),
            decreases remaining,
        {
            let delta_time = if remaining < self.dt {
                remaining
            } else {
                self.dt
            };
            proof {
                assert(delta_time * self.time_scale <= TICK_US * MAX_TIME_SCALE)
                    by (nonlinear_arith)
                    requires
                        0 <= delta_time <= TICK_US,
                        0 <= self.time_scale <= MAX_TIME_SCALE,
                ;
            }
            let sim_time = delta_time * self.time_scale / 1000;
            let ghost pre = self@;

            self.simulate(sim_time, frame_time);

            proof {
                assert(delta_time as int == step_of(pre, remaining as int));
                assert(sim_time as int == scaled_step(delta_time as int, pre.time_scale));
                states = states.push(self@);
                rems = rems.push(remaining - delta_time);
            }
            remaining = remaining - delta_time;
        }
        proof {
            assert(update_chain(states, rems, frame_time as int));
        }
    }

    /// One simulation step of duration `time` (already scaled), with
    /// `frame_delta` the real elapsed frame time that ticks the pause
    /// countdown. While the menu is open the step is a no-op; while a pause
    /// countdown runs only the countdown ticks and everything holds position;
    /// otherwise the paddles and the ball move, the four walls and then the
    /// two paddles are tested against the ball's bounding square, and a goal
    /// scores for the opponent and resets the round.
    #[verifier::rlimit(100)]
    pub fn simulate(&mut self, time: u64, frame_delta: u64)
        requires
            old(self).wf(),
            time <= MAX_STEP_US,
            old(self).player1_score < u64::MAX,
            old(self).player2_score < u64::MAX,
        ensures
            final(self).wf(),
            sim_rel(old(self)@, time as int, frame_delta as int, final(self)@),
            final(self)@.player1_score <= old(self)@.player1_score + 1,
            final(self)@.player2_score <= old(self)@.player2_score + 1,
    {
        let ghost s0 = old(self)@;
        let ghost t = time as int;

        // The simulation is suspended while the menu is open.
        match self.game_mode {
            GameMode::Menu => {
                return;
            },
            GameMode::Game => {},
        }

        // If the game is paused, only the countdown ticks.
        match self.paused {
            Option::Some(time_paused) => {
                self.paused = if frame_delta <= time_paused {
                    Option::Some(time_paused - frame_delta)
                } else {
                    Option::None
                };
                proof {
                    assert(self@ =~= (GameStateV {
                        paused: pause_ticked(s0.paused->0, frame_delta as int),
                        ..s0
                    }));
                }
                return;
            },
            Option::None => {},
        }

        // Update paddle positions, clamping against the top and bottom walls.
        let pad0 = advance_paddle(self.paddles[0], self.game_height, time);
        self.paddles[0] = pad0;
        let pad1 = advance_paddle(self.paddles[1], self.game_height, time);
        self.paddles[1] = pad1;

        // Update ball position.
        self.ball = integrate_ball(self.ball, time);

        // The bounding square used for every collision test of this step; it
        // is not recomputed after a collision moves the ball.
        let ball_rect = bounding_box(&self.ball);

        let ghost ph0 = motion_phase(s0, t);
        let ghost bbox = ball_box(ph0.ball);
        let ghost w = s0.game_width;
        let ghost h = s0.game_height;
        let ghost play = s0.play_sounds;

        proof {
            assert(self@.paddles =~= ph0.paddles);
            assert(self@ =~= with_phase(s0, ph0));
            assert(s0.walls == wall_seq(w, h));
            assert(s0.walls[0].side is Top && s0.walls[1].side is Left && s0.walls[2].side
                is Right && s0.walls[3].side is Bottom);
        }
        let ghost snap0 = self@;

        // Test the four walls, in construction order, against the bounding
        // square; each goal's round reset draws fresh direction signs.
        let g1 = self.collide_wall(&ball_rect, 0);
        let ghost snap1 = self@;
        let g2 = self.collide_wall(&ball_rect, 1);
        let ghost snap2 = self@;
        let g3 = self.collide_wall(&ball_rect, 2);
        let ghost snap3 = self@;
        let g4 = self.collide_wall(&ball_rect, 3);
        let ghost snap4 = self@;

        // Then the two paddles, against the same stale bounding square.
        self.collide_paddle(&ball_rect, 0);
        let ghost snap5 = self@;
        self.collide_paddle(&ball_rect, 1);

        proof {
            let hit_left = rects_overlap(bbox, wall_rect(Side::Left, w, h));
            let hit_right = rects_overlap(bbox, wall_rect(Side::Right, w, h));
            // The ball's direction signs after the step come from the last
            // round reset that fired, if any.
            let sx: int = if hit_right {
                g3@.0
            } else {
                g2@.0
            };
            let sy: int = if hit_right {
                g3@.1
            } else {
                g2@.1
            };
            let c1 = wall_pass(ph0, bbox, Side::Top, w, h, play, sx, sy);
            let c2 = wall_pass(c1, bbox, Side::Left, w, h, play, sx, sy);
            let c3 = wall_pass(c2, bbox, Side::Right, w, h, play, sx, sy);
            let c4 = wall_pass(c3, bbox, Side::Bottom, w, h, play, sx, sy);
            let c5 = paddle_pass(c4, bbox, 0, play);
            let c6 = paddle_pass(c5, bbox, 1, play);

            assert(s0.walls == wall_seq(w, h));

            lemma_wall_compose(s0, ph0, snap0, bbox, Side::Top, g1@.0, g1@.1);
            assert(wall_pass(ph0, bbox, Side::Top, w, h, play, g1@.0, g1@.1) =~= c1);
            assert(snap1 == with_phase(s0, c1));

            let d2 = wall_pass(c1, bbox, Side::Left, w, h, play, g2@.0, g2@.1);
            lemma_wall_compose(s0, c1, snap1, bbox, Side::Left, g2@.0, g2@.1);
            assert(snap2 == with_phase(s0, d2));
            if hit_left && hit_right {
                // Both goal lines hit in one step: the right reset replaces
                // the left reset's ball wholly, so the two chains agree from
                // the right wall on.
                lemma_wall_compose(s0, d2, snap2, bbox, Side::Right, g3@.0, g3@.1);
                assert(wall_pass(d2, bbox, Side::Right, w, h, play, sx, sy) =~= c3);
                assert(snap3 == with_phase(s0, c3));
            } else {
                assert(d2 =~= c2);
                lemma_wall_compose(s0, c2, snap2, bbox, Side::Right, g3@.0, g3@.1);
                assert(wall_pass(c2, bbox, Side::Right, w, h, play, g3@.0, g3@.1) =~= c3);
                assert(snap3 == with_phase(s0, c3));
            }
            lemma_wall_compose(s0, c3, snap3, bbox, Side::Bottom, g4@.0, g4@.1);
            assert(wall_pass(c3, bbox, Side::Bottom, w, h, play, g4@.0, g4@.1) =~= c4);
            assert(snap4 == with_phase(s0, c4));

            lemma_paddle_compose(s0, c4, snap4, bbox, 0);
            assert(snap5 == with_phase(s0, c5));
            lemma_paddle_compose(s0, c5, snap5, bbox, 1);
            assert(self@ == with_phase(s0, c6));

            assert(self@ =~= sim_stepped(s0, t, sx, sy));
            assert(sign_ok(sx) && sign_ok(sy));
            assert(sim_rel(s0, t, frame_delta as int, self@));
        }
    }

    /// The response to the ball's bounding square overlapping wall `i`, as
    /// the original wall loop body: reflect off the top or bottom wall, or
    /// score and reset the round at a goal line. Returns the direction signs
    /// drawn by the round reset, if one fired.
    fn collide_wall(&mut self, ball_rect: &Rect, i: usize) -> (signs: Ghost<(int, int)>)
        requires
            old(self).wf(),
            i < 4,
            rect_bounded(ball_rect@),
            old(self)@.walls[i as int].side is Right ==> old(self).player1_score < u64::MAX,
            old(self)@.walls[i as int].side is Left ==> old(self).player2_score < u64::MAX,
        ensures
            final(self).wf(),
            sign_ok(signs@.0) && sign_ok(signs@.1),
            final(self)@ == wall_passed_state(
                old(self)@,
                ball_rect@,
                old(self)@.walls[i as int].side,
                signs@.0,
                signs@.1,
            ),
    {
        let ghost s0 = old(self)@;
        proof {
            assert(s0.walls == wall_seq(s0.game_width, s0.game_height));
            assert(s0.walls[i as int].rect == wall_rect(
                s0.walls[i as int].side,
                s0.game_width,
                s0.game_height,
            ));
            assert(rect_bounded(s0.walls[i as int].rect));
        }
        let wall = self.walls[i];

        if !ball_rect.overlaps(&wall.rect) {
            proof {
                assert(self@ =~= wall_passed_state(s0, ball_rect@, s0.walls[i as int].side, 1, 1));
            }
            return Ghost((1int, 1int));
        }

        match wall.side {
            Side::Left => {
                // Left wall: a goal for player 2.
                self.ball.x = self.ball.radius;
                self.player2_score = self.player2_score + 1;

                self.ball.dx = -self.ball.dx;

                self.play_sound(SoundType::Goal);

                let ghost pre_reset = self@;
                self.reset_game(false);

                proof {
                    let (a, b) = choose|a: int, b: int|
                        sign_ok(a) && sign_ok(b) && self@ == reset_applied(pre_reset, false, a, b);
                    assert(self@ =~= wall_passed_state(
                        s0,
                        ball_rect@,
                        s0.walls[i as int].side,
                        a,
                        b,
                    ));
                    assert(sign_ok(a) && sign_ok(b));
                }
                let ghost drawn = choose|a: int, b: int|
                    sign_ok(a) && sign_ok(b) && self@ == reset_applied(pre_reset, false, a, b);
                Ghost((drawn.0, drawn.1))
            },
            Side::Right => {
                // Right wall: a goal for player 1.
                self.ball.x = self.game_width - self.ball.radius;
                self.player1_score = self.player1_score + 1;

                self.ball.dx = -self.ball.dx;

                self.play_sound(SoundType::Goal);

                let ghost pre_reset = self@;
                self.reset_game(false);

                proof {
                    let (a, b) = choose|a: int, b: int|
                        sign_ok(a) && sign_ok(b) && self@ == reset_applied(pre_reset, false, a, b);
                    assert(self@ =~= wall_passed_state(
                        s0,
                        ball_rect@,
                        s0.walls[i as int].side,
                        a,
                        b,
                    ));
                    assert(sign_ok(a) && sign_ok(b));
                }
                let ghost drawn = choose|a: int, b: int|
                    sign_ok(a) && sign_ok(b) && self@ == reset_applied(pre_reset, false, a, b);
                Ghost((drawn.0, drawn.1))
            },
            Side::Top => {
                // Top wall: reflect downward.
                self.ball.y = self.ball.radius;

                self.ball.dy = -self.ball.dy;

                self.play_sound(SoundType::Wall);
                proof {
                    assert(self@ =~= wall_passed_state(
                        s0,
                        ball_rect@,
                        s0.walls[i as int].side,
                        1,
                        1,
                    ));
                }
                Ghost((1int, 1int))
            },
            Side::Bottom => {
                // Bottom wall: reflect upward.
                self.ball.y = self.game_height - self.ball.radius;

                self.ball.dy = -self.ball.dy;

                self.play_sound(SoundType::Wall);
                proof {
                    assert(self@ =~= wall_passed_state(
                        s0,
                        ball_rect@,
                        s0.walls[i as int].side,
                        1,
                        1,
                    ));
                }
                Ghost((1int, 1int))
            },
        }
    }

    /// The response to the ball's bounding square overlapping paddle `i`:
    /// the ball is pushed flush against the paddle's front edge, its
    /// horizontal velocity inverted, and a pad sound requested. The vertical
    /// velocity is never touched: the bounce is flat.
    fn collide_paddle(&mut self, ball_rect: &Rect, i: usize)
        requires
            old(self).wf(),
            i < 2,
            rect_bounded(ball_rect@),
        ensures
            final(self).wf(),
            final(self)@ == paddle_passed_state(old(self)@, ball_rect@, i as int),
    {
        let ghost s0 = old(self)@;
        let pad = self.paddles[i];

        if ball_rect.overlaps(&pad.rect) {
            match pad.side {
                Side::Left => {
                    self.ball.x = pad.rect.x + pad.rect.w + self.ball.radius;
                },
                Side::Right => {
                    self.ball.x = pad.rect.x - self.ball.radius;
                },
                _ => {},
            }

            self.ball.dx = -self.ball.dx;

            self.play_sound(SoundType::Pad);
        }
        proof {
            assert(self@ =~= paddle_passed_state(s0, ball_rect@, i as int));
        }
    }

    /// Recreates the ball at the centre with fresh random direction signs and
    /// each paddle at its home position (keeping its side), and arms the
    /// pause countdown. Resets the scores exactly when `reset_score` asks.
    pub fn reset_game(&mut self, reset_score: bool)
        requires
            old(self).wf(),
        ensures
            final(self).wf(),
            reset_rel(old(self)@, reset_score, final(self)@),
    {
        self.ball = Ball::new(self.game_width, self.game_height);

        let side0 = self.paddles[0].side;
        self.paddles[0] = Paddle::new(self.game_width, self.game_height, side0);
        let side1 = self.paddles[1].side;
        self.paddles[1] = Paddle::new(self.game_width, self.game_height, side1);

        self.paused = Option::Some(GOAL_PAUSE_US);

        if reset_score {
            self.player1_score = 0;
            self.player2_score = 0;
        }

        proof {
            let w = old(self)@.game_width;
            let h = old(self)@.game_height;
            let (sx, sy) = choose|sx: int, sy: int|
                sign_ok(sx) && sign_ok(sy) && self@.ball == home_ball(w, h, sx, sy);
            assert(self@.paddles =~= home_paddles(w, h));
            assert(self@ =~= reset_applied(old(self)@, reset_score, sx, sy));
        }
    }
}

} // verus!
