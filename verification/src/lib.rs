//! Core of a side-scrolling arcade game: a bird falls under gravity and jumps
//! on input, while a fixed-capacity ring of pipe pairs scrolls left and is
//! recycled to the right, and a small state machine sequences the rounds.
//!
//! Every length in this crate is an integer count of coordinate steps,
//! `SCALE` steps per screen unit, and every duration is a whole number of
//! milliseconds, so all kinematics are exact and every run is reproducible
//! from its seed. A renderer divides by `SCALE` to recover screen units.
//!
//! Of the attested tuning variants, this crate fixes the single-phase
//! constant-gravity integrator for the bird and full-ring collision testing;
//! the asymmetric two-phase integrator and head-only collision checks are
//! alternate tunings, not implemented here.
use vstd::prelude::*;

pub mod bird;
pub mod game;
pub mod geometry;
pub mod pipe;
pub mod rng;

verus! {

/// Coordinate steps per screen unit.
pub const SCALE: i64 = 10_000;

/// Width of the playing field, in steps (800 screen units).
pub const SCREEN_WIDTH: i64 = 8_000_000;

/// Height of the playing field, in steps (600 screen units).
pub const SCREEN_HEIGHT: i64 = 6_000_000;

/// Every coordinate the simulation produces is kept within
/// `[-COORD_LIMIT, COORD_LIMIT]`: integration saturates at this sentinel,
/// far outside anything a game round can reach, so that the arithmetic of
/// later frames cannot overflow.
pub const COORD_LIMIT: i64 = 4_000_000_000_000;

/// Upper bound on the elapsed time a single frame may report, in
/// milliseconds. With coordinates within `COORD_LIMIT`, one step of
/// integration over at most `DT_MAX` milliseconds stays within `i64`.
pub const DT_MAX: u64 = 1_000_000;

/// `v` saturated to the coordinate range `[-COORD_LIMIT, COORD_LIMIT]`.
pub open spec fn clamp_coord(v: int) -> int {
    if v < -COORD_LIMIT {
        -COORD_LIMIT as int
    } else if v > COORD_LIMIT {
        COORD_LIMIT as int
    } else {
        v
    }
}

/// `v` lies in the coordinate range, so `clamp_coord` leaves it alone.
pub open spec fn coord_in_range(v: int) -> bool {
    -COORD_LIMIT <= v <= COORD_LIMIT
}

pub fn clamp_to_coord_range(v: i64) -> (r: i64)
    ensures
        r == clamp_coord(v as int),
{
    if v < -COORD_LIMIT {
        -COORD_LIMIT
    } else if v > COORD_LIMIT {
        COORD_LIMIT
    } else {
        v
    }
}

} // verus!
