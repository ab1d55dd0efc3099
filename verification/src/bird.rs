//! The player entity: a square that falls under constant gravity and jumps
//! on input. Position integrates exactly, one millisecond step at a time.
use vstd::prelude::*;

use crate::geometry::{Rect, RectV};
use crate::{clamp_coord, clamp_to_coord_range, coord_in_range, COORD_LIMIT, DT_MAX, SCREEN_HEIGHT};

verus! {

/// Edge length of the bird's square hitbox, in steps (50 screen units).
pub const BIRD_SIZE: i64 = 500_000;

/// Horizontal spawn coordinate, in steps (100 screen units).
pub const BIRD_START_X: i64 = 1_000_000;

/// Vertical spawn coordinate, in steps (300 screen units).
pub const BIRD_START_Y: i64 = 3_000_000;

/// Upward speed set by a jump, in steps per millisecond (700 units/s).
pub const JUMP_SPEED: i64 = 7_000;

/// Downward acceleration, in steps per millisecond squared (2100 units/s²,
/// three times the jump speed per second — a tuning ratio, not derived).
pub const GRAVITY: i64 = 21;

/// Mathematical state of the bird. `vel` is positive upward while screen
/// `y` grows downward, so rising means `y` decreases.
pub ghost struct BirdV {
    pub x: int,
    pub y: int,
    pub size: int,
    pub vel: int,
}

/// The bird: upper-left corner of its square hitbox, fixed edge length, and
/// signed vertical velocity (positive = upward).
#[derive(Clone, Copy, Debug, PartialEq, Eq, Structural)]
pub struct Bird {
    pub x: i64,
    pub y: i64,
    pub size: i64,
    pub vel: i64,
}

impl View for Bird {
    type V = BirdV;

    open spec fn view(&self) -> BirdV {
        BirdV { x: self.x as int, y: self.y as int, size: self.size as int, vel: self.vel as int }
    }
}

/// The bird's size is the fixed constant and its coordinates and velocity
/// lie in the coordinate range.
pub open spec fn bird_wf(b: BirdV) -> bool {
    &&& b.size == BIRD_SIZE
    &&& coord_in_range(b.x)
    &&& coord_in_range(b.y)
    &&& coord_in_range(b.vel)
}

/// A freshly spawned bird: at the spawn point, at rest.
pub open spec fn bird_spawned() -> BirdV {
    BirdV { x: BIRD_START_X as int, y: BIRD_START_Y as int, size: BIRD_SIZE as int, vel: 0 }
}

/// `b` with its velocity reset to the jump speed.
pub open spec fn bird_jumped(b: BirdV) -> BirdV {
    BirdV { vel: JUMP_SPEED as int, ..b }
}

/// One frame of integration over `dt` milliseconds: the position moves by
/// the old velocity, then gravity decays the velocity. Both results saturate
/// at the coordinate sentinel.
pub open spec fn bird_stepped(b: BirdV, dt: int) -> BirdV {
    BirdV { y: clamp_coord(b.y - b.vel * dt), vel: clamp_coord(b.vel - GRAVITY * dt), ..b }
}

/// The bird's current square hitbox.
pub open spec fn bird_rect(b: BirdV) -> RectV {
    RectV { x: b.x, y: b.y, w: b.size, h: b.size }
}

/// The full hitbox lies strictly within the vertical screen bounds;
/// horizontal bounds are not checked, the bird never moves horizontally.
pub open spec fn bird_on_screen(b: BirdV) -> bool {
    b.y > 0 && b.y + b.size < SCREEN_HEIGHT
}

/// The sum of a sequence of frame times.
pub open spec fn total_time(dts: Seq<int>) -> int
    decreases dts.len(),
{
    if dts.len() == 0 {
        0
    } else {
        dts[0] + total_time(dts.subrange(1, dts.len() as int))
    }
}

/// The bird after the frames of `dts`, oldest first.
pub open spec fn bird_run(b: BirdV, dts: Seq<int>) -> BirdV
    decreases dts.len(),
{
    if dts.len() == 0 {
        b
    } else {
        bird_run(bird_stepped(b, dts[0]), dts.subrange(1, dts.len() as int))
    }
}

/// Every frame time of the run is admissible and no intermediate position
/// or velocity reaches the coordinate sentinel, so no step saturates.
pub open spec fn bird_run_in_range(b: BirdV, dts: Seq<int>) -> bool
    decreases dts.len(),
{
    if dts.len() == 0 {
        true
    } else {
        &&& 0 <= dts[0] <= DT_MAX
        &&& coord_in_range(b.y - b.vel * dts[0])
        &&& coord_in_range(b.vel - GRAVITY * dts[0])
        &&& bird_run_in_range(bird_stepped(b, dts[0]), dts.subrange(1, dts.len() as int))
    }
}

/// `n` frames of the same length `dt`.
pub open spec fn repeated_dt(dt: int, n: nat) -> Seq<int> {
    Seq::new(n, |i: int| dt)
}

/// Velocity integrates linearly: over any sequence of frames that stays
/// clear of the sentinel, the bird loses exactly gravity times the total
/// elapsed time.
pub proof fn lemma_velocity_linear(b: BirdV, dts: Seq<int>)
    requires
        bird_run_in_range(b, dts),
    ensures
        bird_run(b, dts).vel == b.vel - GRAVITY * total_time(dts),
    decreases dts.len(),
{
    if dts.len() > 0 {
        let b1 = bird_stepped(b, dts[0]);
        let rest = dts.subrange(1, dts.len() as int);
        assert(b1.vel == b.vel - GRAVITY * dts[0]);
        lemma_velocity_linear(b1, rest);
    }
}

/// After a jump followed by any frames totalling time `t` and staying clear
/// of the sentinel, the velocity is exactly the jump speed less gravity
/// times `t`.
pub proof fn lemma_jump_velocity(b: BirdV, dts: Seq<int>)
    requires
        bird_run_in_range(bird_jumped(b), dts),
    ensures
        bird_run(bird_jumped(b), dts).vel == JUMP_SPEED - GRAVITY * total_time(dts),
{
    lemma_velocity_linear(bird_jumped(b), dts);
}

/// Position integrates accordingly, in closed form for a constant frame
/// time: over `n` frames of length `dt` the bird drops by
/// `n·vel·dt − gravity·dt²·n(n−1)/2`; both sides are stated doubled to stay
/// in the integers.
pub proof fn lemma_position_closed_form_const_dt(b: BirdV, dt: int, n: nat)
    requires
        bird_run_in_range(b, repeated_dt(dt, n)),
    ensures
        bird_run(b, repeated_dt(dt, n)).vel == b.vel - GRAVITY * n * dt,
        2 * (b.y - bird_run(b, repeated_dt(dt, n)).y) == 2 * n * b.vel * dt - GRAVITY * dt * dt * n
            * (n - 1),
    decreases n,
{
    let dts = repeated_dt(dt, n);
    if n == 0 {
        assert(GRAVITY * (0 as int) * dt == 0) by (nonlinear_arith);
    } else {
        let b1 = bird_stepped(b, dt);
        let m = (n - 1) as int;
        assert(dts[0] == dt);
        assert(dts.subrange(1, dts.len() as int) =~= repeated_dt(dt, (n - 1) as nat));
        assert(b1.vel == b.vel - GRAVITY * dt);
        assert(b1.y == b.y - b.vel * dt);
        lemma_position_closed_form_const_dt(b1, dt, (n - 1) as nat);
        let r = bird_run(b1, repeated_dt(dt, (n - 1) as nat));
        assert(bird_run(b, dts) == r);
        assert(r.vel == b1.vel - GRAVITY * m * dt);
        assert(b.vel - GRAVITY * dt - GRAVITY * m * dt == b.vel - GRAVITY * (m + 1) * dt)
            by (nonlinear_arith);
        assert(2 * (b1.y - r.y) == 2 * m * b1.vel * dt - GRAVITY * dt * dt * m * (m - 1));
        assert(2 * m * b1.vel * dt == 2 * m * (b.vel - GRAVITY * dt) * dt);
        assert(2 * (b.y - r.y) == 2 * b.vel * dt + 2 * m * (b.vel - GRAVITY * dt) * dt - GRAVITY
            * dt * dt * m * (m - 1)) by (nonlinear_arith)
            requires
                b1.y == b.y - b.vel * dt,
                2 * (b1.y - r.y) == 2 * m * b1.vel * dt - GRAVITY * dt * dt * m * (m - 1),
                b1.vel == b.vel - GRAVITY * dt,
        ;
        assert(2 * b.vel * dt + 2 * m * (b.vel - GRAVITY * dt) * dt - GRAVITY * dt * dt * m * (m
            - 1) == 2 * (m + 1) * b.vel * dt - GRAVITY * dt * dt * (m + 1) * m)
            by (nonlinear_arith);
    }
}

impl Bird {
    /// Spawns the bird at the fixed start point with zero velocity.
    pub fn new() -> (b: Bird)
        ensures
            b@ == bird_spawned(),
            bird_wf(b@),
    {
        Bird { x: BIRD_START_X, y: BIRD_START_Y, size: BIRD_SIZE, vel: 0 }
    }

    /// Sets the vertical velocity to the jump speed; repeated calls simply
    /// reset it, there is no accumulation.
    pub fn jump(&mut self)
        ensures
            final(self)@ == bird_jumped(old(self)@),
    {
        self.vel = JUMP_SPEED;
    }

    /// Advances the bird by `dt` milliseconds of frame time.
    pub fn update(&mut self, dt: u64)
        requires
            bird_wf(old(self)@),
            dt <= DT_MAX,
        ensures
            final(self)@ == bird_stepped(old(self)@, dt as int),
            bird_wf(final(self)@),
    {
        let step = dt as i64;
        proof {
            assert(-COORD_LIMIT * (DT_MAX as int) <= self.vel * step <= COORD_LIMIT * (
            DT_MAX as int)) by (nonlinear_arith)
                requires
                    -COORD_LIMIT <= self.vel <= COORD_LIMIT,
                    0 <= step <= DT_MAX,
            ;
        }
        self.y = clamp_to_coord_range(self.y - self.vel * step);
        self.vel = clamp_to_coord_range(self.vel - GRAVITY * step);
    }

    /// The current hitbox as a rectangle. Pure query.
    pub fn position(&self) -> (r: Rect)
        ensures
            r@ == bird_rect(self@),
    {
        Rect { x: self.x, y: self.y, w: self.size, h: self.size }
    }

    /// Whether the full hitbox lies strictly within the vertical screen
    /// bounds.
    pub fn is_on_screen(&self) -> (r: bool)
        requires
            bird_wf(self@),
        ensures
            r == bird_on_screen(self@),
    {
        self.y > 0 && self.y + self.size < SCREEN_HEIGHT
    }
}

} // verus!
