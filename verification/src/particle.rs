use vstd::prelude::*;

use crate::config::{COORD_LIMIT, PX};
use crate::random::sample_inclusive;

verus! {

/// How many frames a particle lives before it is marked dead and recycled.
pub const PARTICLE_LIFETIME: u64 = 12;

#[derive(Clone, Copy, Debug, PartialEq, Eq, Hash, Structural)]
pub enum ParticleType {
    Green,
    Red,
    Blue,
    Shimmer,
    Blank,
}

/// A short-lived decorative element spawned around the ball and recycled in
/// place when dead. Position in micro-pixels.
#[derive(Clone, Copy, Debug)]
pub struct Particle {
    pub x: i64,
    pub y: i64,
    pub frame: u64,
    pub is_dead: bool,
    pub particle_type: ParticleType,
    pub shimmer: bool,
}

/// Ghost mirror of `Particle` over unbounded integers.
#[verifier::ext_equal]
pub struct ParticleV {
    pub x: int,
    pub y: int,
    pub frame: int,
    pub is_dead: bool,
    pub particle_type: ParticleType,
    pub shimmer: bool,
}

impl View for Particle {
    type V = ParticleV;

    open spec fn view(&self) -> ParticleV {
        ParticleV {
            x: self.x as int,
            y: self.y as int,
            frame: self.frame as int,
            is_dead: self.is_dead,
            particle_type: self.particle_type,
            shimmer: self.shimmer,
        }
    }
}

/// The frame counter never runs past the lifetime by more than the final
/// increment, and a particle past its lifetime is dead.
pub open spec fn wf_particle(p: ParticleV) -> bool {
    &&& 0 <= p.frame <= PARTICLE_LIFETIME + 1
    &&& p.frame > PARTICLE_LIFETIME ==> p.is_dead
}

/// The random ingredients of a fresh particle: offsets within a 24-pixel
/// square, a starting frame within the first five, and one of the three
/// plain colours.
pub open spec fn fresh_ok(ox: int, oy: int, fr: int, ty: ParticleType) -> bool {
    &&& 0 <= ox <= 24
    &&& 0 <= oy <= 24
    &&& 0 <= fr <= 4
    &&& (ty is Blue || ty is Red || ty is Green)
}

/// A fresh particle built from the ball position `(x, y)` and the random
/// ingredients.
pub open spec fn fresh_particle(
    x: int,
    y: int,
    ox: int,
    oy: int,
    fr: int,
    ty: ParticleType,
    shimmer: bool,
) -> ParticleV {
    ParticleV {
        x: x - 16 * PX + ox * PX,
        y: y - 16 * PX + oy * PX,
        frame: fr,
        is_dead: false,
        particle_type: ty,
        shimmer: shimmer,
    }
}

/// There are random ingredients that produce `p` from `(x, y)`.
pub open spec fn fresh_rel(x: int, y: int, shimmer: bool, p: ParticleV) -> bool {
    exists|ox: int, oy: int, fr: int, ty: ParticleType|
        fresh_ok(ox, oy, fr, ty) && p == fresh_particle(x, y, ox, oy, fr, ty, shimmer)
}

/// Whether a live particle shimmers this frame: on every even frame, or when
/// a shimmer was armed at construction and not yet consumed.
pub open spec fn shimmer_flag(p: ParticleV) -> bool {
    p.frame % 2 == 0 || p.shimmer
}

/// One bookkeeping tick of a live particle: the frame advances, the particle
/// dies once past its lifetime, and any shimmer is consumed.
pub open spec fn particle_ticked(p: ParticleV) -> ParticleV {
    ParticleV {
        frame: p.frame + 1,
        is_dead: if p.frame + 1 > PARTICLE_LIFETIME {
            true
        } else {
            p.is_dead
        },
        shimmer: false,
        ..p
    }
}

/// How one call of `advance` transforms a particle: a dead particle is first
/// recycled in place as a fresh one around the ball, then the bookkeeping
/// tick applies; `shimmered` reports whether a shimmer overlay is to be drawn
/// this frame.
pub open spec fn advance_rel(
    p: ParticleV,
    x: int,
    y: int,
    p2: ParticleV,
    shimmered: bool,
) -> bool {
    if p.is_dead {
        exists|ox: int, oy: int, fr: int, ty: ParticleType|
            #[trigger] fresh_ok(ox, oy, fr, ty) && p2 == particle_ticked(
                fresh_particle(x, y, ox, oy, fr, ty, false),
            ) && shimmered == shimmer_flag(fresh_particle(x, y, ox, oy, fr, ty, false))
    } else {
        p2 == particle_ticked(p) && shimmered == shimmer_flag(p)
    }
}

impl Particle {
    /// A fresh particle near the point `(x, y)`: offset at random within a
    /// 24-pixel square, starting at a random frame with a random colour.
    pub fn new(x: i64, y: i64, shimmer: bool) -> (p: Particle)
        requires
            -COORD_LIMIT <= x <= COORD_LIMIT,
            -COORD_LIMIT <= y <= COORD_LIMIT,
        ensures
            fresh_rel(x as int, y as int, shimmer, p@),
            wf_particle(p@),
    {
        let ox = sample_inclusive(0, 24);
        let oy = sample_inclusive(0, 24);
        let frame = sample_inclusive(0, 4);

        let particle_type: ParticleType = match sample_inclusive(0, 2) {
            0 => ParticleType::Blue,
            1 => ParticleType::Red,
            _ => ParticleType::Green,
        };

        let p = Particle {
            x: x - 16 * PX + (ox as i64) * PX,
            y: y - 16 * PX + (oy as i64) * PX,
            frame,
            is_dead: false,
            particle_type,
            shimmer,
        };
        proof {
            assert(fresh_ok(ox as int, oy as int, frame as int, particle_type) && p@
                == fresh_particle(
                x as int,
                y as int,
                ox as int,
                oy as int,
                frame as int,
                particle_type,
                shimmer,
            ));
        }
        p
    }

    /// One per-frame step of a particle: recycles it around the ball at
    /// `(ball_x, ball_y)` when dead, toggles and consumes the shimmer, ages
    /// it, and kills it past its lifetime. Returns whether a shimmer overlay
    /// is to be drawn this frame.
    pub fn advance(&mut self, ball_x: i64, ball_y: i64) -> (shimmered: bool)
        requires
            wf_particle(old(self)@),
            -COORD_LIMIT <= ball_x <= COORD_LIMIT,
            -COORD_LIMIT <= ball_y <= COORD_LIMIT,
        ensures
            wf_particle(final(self)@),
            advance_rel(old(self)@, ball_x as int, ball_y as int, final(self)@, shimmered),
    {
        if self.is_dead {
            *self = Particle::new(ball_x, ball_y, false);
        }

        if self.frame % 2 == 0 {
            self.shimmer = true;
        }

        self.frame = self.frame + 1;

        if self.frame > PARTICLE_LIFETIME {
            self.is_dead = true;
        }

        let shimmered = self.shimmer;
        if self.shimmer {
            self.shimmer = false;
        }
        shimmered
    }
}

} // verus!
