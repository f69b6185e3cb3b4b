//! The yarn ball the cat chases: it bounces diagonally along the edges of the
//! screen area, and is caught (and hidden) when the cat reaches it.
//!
//! Where the ball stands is kept by the caller, which measures it against the edges
//! and the cat; this module decides from that whether the ball is caught, turns at
//! an edge, or takes a diagonal step, and by how much.

use vstd::prelude::*;
use crate::geometry::Edges;
use crate::rng::{Rng, high_bits, xorshift, UNIT_DENOMINATOR};

verus! {

/// Frames in the ball's sprite sheet, laid out in one row of 32x32 tiles.
pub const FRAMES: usize = 6;

/// Vertical distance of one step, in pixels.
pub const V_STEP: i32 = 16;

/// Horizontal distance of a step right after the ball appears.
pub const BASE_CURVATURE: u32 = 14;

/// A draw of `bits / 2^53` is below one tenth exactly when `bits` is below this.
pub const ONE_TENTH_BITS: u64 = 900719925474100;

/// The four diagonal directions of the ball.
#[derive(PartialEq, Eq, Structural, Clone, Copy, Debug)]
pub enum Dir {
    TopLeft,
    TopRight,
    BottomLeft,
    BottomRight,
}

/// The direction that a quarter index picks: 0, 1, 2, or anything else.
pub open spec fn dir_of_quarter(q: u64) -> Dir {
    if q == 0 {
        Dir::TopLeft
    } else if q == 1 {
        Dir::TopRight
    } else if q == 2 {
        Dir::BottomLeft
    } else {
        Dir::BottomRight
    }
}

/// What the ball did in a tick.
#[derive(PartialEq, Eq, Structural, Clone, Copy, Debug)]
pub enum ToyStep {
    /// The ball is hidden, and stays where it is.
    Idle,
    /// The cat reached the ball, which is now hidden.
    Caught,
    /// The ball turned at an edge, without moving.
    Turned,
    /// The ball moves by `(dx, dy)` pixels.
    Moved(i32, i32),
}

/// How a ball heading `d` with horizontal step `curv` reacts to the edges it
/// touches: the direction it takes, and the step.
pub open spec fn steer(d: Dir, e: Edges, curv: int) -> (Dir, ToyStep) {
    match d {
        Dir::TopLeft => if e.left {
            (Dir::TopRight, ToyStep::Turned)
        } else if e.top {
            (Dir::BottomLeft, ToyStep::Turned)
        } else {
            (d, ToyStep::Moved(-curv as i32, -16i32))
        },
        Dir::TopRight => if e.right {
            (Dir::TopLeft, ToyStep::Turned)
        } else if e.top {
            (Dir::BottomRight, ToyStep::Turned)
        } else {
            (d, ToyStep::Moved(curv as i32, -16i32))
        },
        Dir::BottomLeft => if e.left {
            (Dir::BottomRight, ToyStep::Turned)
        } else if e.bottom {
            (Dir::TopLeft, ToyStep::Turned)
        } else {
            (d, ToyStep::Moved(-curv as i32, 16i32))
        },
        Dir::BottomRight => if e.right {
            (Dir::BottomLeft, ToyStep::Turned)
        } else if e.bottom {
            (Dir::TopRight, ToyStep::Turned)
        } else {
            (d, ToyStep::Moved(curv as i32, 16i32))
        },
    }
}

/// The yarn ball's state, apart from its position.
pub struct Toy {
    active: bool,
    dir: Dir,
    curvature: u32,
    loop_counter: usize,
    rng: Rng,
}

impl Toy {
    /// Whether the ball is out (not caught, not hidden).
    pub closed spec fn is_out(&self) -> bool {
        self.active
    }

    /// Whether the ball is out (not caught, not hidden).
    pub fn active(&self) -> (r: bool)
        ensures
            r == self.is_out(),
    {
        self.active
    }
    /// The ball's direction.
    pub closed spec fn direction(&self) -> Dir {
        self.dir
    }

    /// The horizontal distance of the ball's next step.
    pub closed spec fn curve(&self) -> u32 {
        self.curvature
    }

    /// Ticks the ball has moved for, counted modulo `usize::MAX + 1`.
    pub closed spec fn ticks(&self) -> usize {
        self.loop_counter
    }

    /// The state of the ball's random source.
    pub closed spec fn rng_state(&self) -> u64 {
        self.rng.state()
    }

    /// Well-formed: the random source is, and the horizontal step is 14 to 17
    /// pixels.
    pub closed spec fn wf(&self) -> bool {
        &&& self.rng.wf()
        &&& BASE_CURVATURE <= self.curvature <= BASE_CURVATURE + 3
    }

    /// A hidden ball heading to the top left, whose random source is seeded with
    /// `seed`.
    pub fn new(seed: u64) -> (t: Toy)
        ensures
            t.wf(),
            !t.is_out(),
            t.direction() == Dir::TopLeft,
            t.curve() == BASE_CURVATURE,
            t.ticks() == 0,
            t.rng_state() == seed | 1u64,
    {
        Toy { active: false, dir: Dir::TopLeft, curvature: BASE_CURVATURE, loop_counter: 0, rng: Rng::from_seed(seed) }
    }

    /// Brings the ball out in a random direction. Returns the two draws, each over
    /// `2^53`, that place it: the first is the fraction of the largest x, the second
    /// of the largest y.
    pub fn spawn(&mut self) -> (draws: (u64, u64))
        requires
            old(self).wf(),
        ensures
            final(self).wf(),
            final(self).is_out(),
            final(self).curve() == BASE_CURVATURE,
            final(self).ticks() == old(self).ticks(),
            final(self).rng_state() == xorshift(xorshift(xorshift(old(self).rng_state()))),
            draws.0 == high_bits(xorshift(old(self).rng_state())),
            draws.1 == high_bits(xorshift(xorshift(old(self).rng_state()))),
            final(self).direction() == dir_of_quarter(high_bits(final(self).rng_state()) >> 51u64),
            draws.0 < UNIT_DENOMINATOR,
            draws.1 < UNIT_DENOMINATOR,
    {
        let x: u64 = self.rng.next_bits();
        let y: u64 = self.rng.next_bits();
        let q: u64 = self.rng.next_bits() >> 51u64;
        self.dir = if q == 0 {
            Dir::TopLeft
        } else if q == 1 {
            Dir::TopRight
        } else if q == 2 {
            Dir::BottomLeft
        } else {
            Dir::BottomRight
        };
        self.curvature = BASE_CURVATURE;
        self.active = true;
        (x, y)
    }

    /// Hides the ball.
    pub fn conceal(&mut self)
        ensures
            !final(self).is_out(),
            final(self).direction() == old(self).direction(),
            final(self).curve() == old(self).curve(),
            final(self).ticks() == old(self).ticks(),
            final(self).rng_state() == old(self).rng_state(),
            old(self).wf() ==> final(self).wf(),
    {
        self.active = false;
    }

    /// The top-left pixel, in the ball's sprite sheet, of the frame shown now.
    pub fn current_frame(&self) -> (px: (i32, i32))
        ensures
            px.0 == (self.ticks() % FRAMES) * 32,
            px.1 == 0,
    {
        let f: usize = self.loop_counter % FRAMES;
        ((f as i32) * 32, 0)
    }

    /// Advances the ball one tick. `reached` tells whether the cat is within
    /// catching distance, `edges` which edges the ball touches. A hidden ball does
    /// nothing; a reached one is caught and hidden; otherwise the ball turns at an
    /// edge or steps diagonally, then, one time in ten, draws a new horizontal step
    /// of 14 to 17 pixels, and its frame advances.
    pub fn update(&mut self, reached: bool, edges: Edges) -> (step: ToyStep)
        requires
            old(self).wf(),
        ensures
            final(self).wf(),
            !old(self).is_out() ==> step == ToyStep::Idle && *final(self) == *old(self),
            old(self).is_out() && reached ==> {
                &&& step == ToyStep::Caught
                &&& !final(self).is_out()
                &&& final(self).direction() == old(self).direction()
                &&& final(self).curve() == old(self).curve()
                &&& final(self).ticks() == old(self).ticks()
                &&& final(self).rng_state() == old(self).rng_state()
            },
            old(self).is_out() && !reached ==> {
                let s1 = xorshift(old(self).rng_state());
                let s2 = xorshift(s1);
                let turn = high_bits(s1) < ONE_TENTH_BITS;
                &&& final(self).is_out()
                &&& (final(self).direction(), step) == steer(old(self).direction(), edges, old(self).curve() as int)
                &&& final(self).rng_state() == (if turn { s2 } else { s1 })
                &&& final(self).curve() == (if turn { (BASE_CURVATURE + (high_bits(s2) >> 51u64)) as u32 } else { old(self).curve() })
                &&& final(self).ticks() == (if old(self).ticks() < usize::MAX { (old(self).ticks() + 1) as usize } else { 0 })
            },
    {
        if !self.active {
            return ToyStep::Idle;
        }
        if reached {
            self.conceal();
            return ToyStep::Caught;
        }
        let c: i32 = self.curvature as i32;
        let step = match self.dir {
            Dir::TopLeft => if edges.left {
                self.dir = Dir::TopRight;
                ToyStep::Turned
            } else if edges.top {
                self.dir = Dir::BottomLeft;
                ToyStep::Turned
            } else {
                ToyStep::Moved(-c, -V_STEP)
            },
            Dir::TopRight => if edges.right {
                self.dir = Dir::TopLeft;
                ToyStep::Turned
            } else if edges.top {
                self.dir = Dir::BottomRight;
                ToyStep::Turned
            } else {
                ToyStep::Moved(c, -V_STEP)
            },
            Dir::BottomLeft => if edges.left {
                self.dir = Dir::BottomRight;
                ToyStep::Turned
            } else if edges.bottom {
                self.dir = Dir::TopLeft;
                ToyStep::Turned
            } else {
                ToyStep::Moved(-c, V_STEP)
            },
            Dir::BottomRight => if edges.right {
                self.dir = Dir::BottomLeft;
                ToyStep::Turned
            } else if edges.bottom {
                self.dir = Dir::TopRight;
                ToyStep::Turned
            } else {
                ToyStep::Moved(c, V_STEP)
            },
        };
        if self.rng.next_bits() < ONE_TENTH_BITS {
            let b: u64 = self.rng.next_bits();
            assert(b < 9007199254740992u64 ==> b >> 51u64 <= 3u64) by (bit_vector);
            self.curvature = BASE_CURVATURE + ((b >> 51u64) as u32);
        }
        self.loop_counter = self.loop_counter.wrapping_add(1);
        step
    }
}

/// Whether a direction goes up the screen.
pub open spec fn goes_up(d: Dir) -> bool {
    d == Dir::TopLeft || d == Dir::TopRight
}

/// Whether a direction goes left.
pub open spec fn goes_left(d: Dir) -> bool {
    d == Dir::TopLeft || d == Dir::BottomLeft
}

/// How the ball meets the edges, over every direction and every edge: when it runs
/// into the side edge ahead of it (left when going left, right when going right), it
/// turns back sideways and keeps going up or down as before; otherwise, when it runs
/// into the top (going up) or the bottom (going down), it turns back vertically and
/// keeps its side; otherwise it steps on, `curv` pixels sideways and 16 up or down,
/// the way it goes.
pub proof fn law_bounce(d: Dir, e: Edges, curv: int)
    ensures
        ({
            let (d2, step) = steer(d, e, curv);
            let side = if goes_left(d) { e.left } else { e.right };
            let end = if goes_up(d) { e.top } else { e.bottom };
            &&& side ==> step == ToyStep::Turned && goes_up(d2) == goes_up(d) && goes_left(d2) != goes_left(d)
            &&& !side && end ==> step == ToyStep::Turned && goes_left(d2) == goes_left(d) && goes_up(d2) != goes_up(d)
            &&& !side && !end ==> d2 == d && step == ToyStep::Moved(
                (if goes_left(d) { -curv } else { curv }) as i32,
                if goes_up(d) { -16i32 } else { 16i32 },
            )
        }),
{
}

/// The horizontal step of a ball is 14 to 17 pixels.
pub proof fn law_curve_in_range(t: &Toy)
    requires
        t.wf(),
    ensures
        BASE_CURVATURE <= t.curve() <= BASE_CURVATURE + 3,
{
}

/// A step never takes the ball further past an edge it touches: it moves left only
/// when it is off the left edge, right only when off the right edge, and so for up
/// and down. Every step is diagonal: 16 pixels up or down, and the horizontal step
/// sideways.
pub proof fn law_steps_stay_inside(d: Dir, e: Edges, curv: int)
    requires
        BASE_CURVATURE <= curv <= BASE_CURVATURE + 3,
    ensures
        steer(d, e, curv).1 matches ToyStep::Moved(dx, dy) ==> {
            &&& (dx < 0 ==> !e.left)
            &&& (dx > 0 ==> !e.right)
            &&& (dy < 0 ==> !e.top)
            &&& (dy > 0 ==> !e.bottom)
            &&& (dx == curv || dx == -curv)
            &&& (dy == V_STEP || dy == -V_STEP)
        },
        steer(d, e, curv).1 is Moved || steer(d, e, curv).1 is Turned,
{
}

/// A ball that turns keeps its vertical heading when it meets a side edge and its
/// horizontal heading when it meets the top or bottom: it bounces.
pub proof fn law_turns_bounce(d: Dir, e: Edges, curv: int)
    ensures
        steer(d, e, curv).1 is Turned ==> steer(d, e, curv).0 != d,
        steer(d, e, curv).1 is Moved ==> steer(d, e, curv).0 == d,
{
}

} // verus!
