//! Fixed-point angles and the two normalisations applied every frame:
//! the tilt is clamped to half a turn either way, and the rotation is
//! wrapped back by at most one full turn.
use vstd::prelude::*;

verus! {

/// Angle units in one radian.
pub const UNITS_PER_RADIAN: i64 = 1_000_000_000;

/// Half a turn (pi radians), rounded to the nearest unit.
pub const HALF_TURN: i64 = 3_141_592_654;

/// A full turn (two pi radians).
pub const FULL_TURN: i64 = 6_283_185_308;

/// Largest magnitude that an orientation angle may have before a frame
/// update; keeps every intermediate sum of a frame inside `i64`.
pub const ANGLE_LIMIT: i64 = 4_000_000_000_000_000_000;

pub open spec fn within_limit(a: int) -> bool {
    -ANGLE_LIMIT <= a <= ANGLE_LIMIT
}

/// Tilt clamped to `[-HALF_TURN, HALF_TURN]`.
pub open spec fn clamped_tilt(t: int) -> int {
    if t > HALF_TURN {
        HALF_TURN as int
    } else if t < -HALF_TURN {
        -HALF_TURN
    } else {
        t
    }
}

/// Single-step wrap: a negative rotation gains one turn, and then a
/// rotation above one turn loses one turn.
pub open spec fn wrapped_rot(r: int) -> int {
    let lifted = if r < 0 { r + FULL_TURN } else { r };
    if lifted > FULL_TURN {
        lifted - FULL_TURN
    } else {
        lifted
    }
}

/// Clamps a tilt angle to half a turn either way.
pub fn clamp_tilt(t: i64) -> (r: i64)
    ensures
        r == clamped_tilt(t as int),
{
    if t > HALF_TURN {
        HALF_TURN
    } else if t < -HALF_TURN {
        -HALF_TURN
    } else {
        t
    }
}

/// Wraps a rotation angle by at most one turn in each direction.
pub fn wrap_rot(r: i64) -> (w: i64)
    requires
        r <= i64::MAX - FULL_TURN,
    ensures
        w == wrapped_rot(r as int),
{
    let mut w = r;
    if w < 0 {
        w = w + FULL_TURN;
    }
    if w > FULL_TURN {
        w = w - FULL_TURN;
    }
    w
}

/// After clamping, a tilt lies in `[-HALF_TURN, HALF_TURN]`, and it sits
/// exactly on the boundary whenever the input reached or passed it.
pub proof fn lemma_clamp_bounds(t: int)
    ensures
        -HALF_TURN <= clamped_tilt(t) <= HALF_TURN,
        t >= HALF_TURN ==> clamped_tilt(t) == HALF_TURN,
        t <= -HALF_TURN ==> clamped_tilt(t) == -HALF_TURN,
        -HALF_TURN <= t <= HALF_TURN ==> clamped_tilt(t) == t,
{
}

/// A rotation no more than one turn outside `[0, FULL_TURN]` is brought
/// into `[0, FULL_TURN]` by one wrap; one already inside is left alone.
pub proof fn lemma_wrap_one_turn(r: int)
    requires
        -FULL_TURN <= r <= 2 * FULL_TURN,
    ensures
        0 <= wrapped_rot(r) <= FULL_TURN,
        0 <= r <= FULL_TURN ==> wrapped_rot(r) == r,
{
}

/// A rotation more than one turn above `FULL_TURN` moves back by exactly
/// one turn and stays out of range.
pub proof fn lemma_wrap_single_step(r: int)
    requires
        r > 2 * FULL_TURN,
    ensures
        wrapped_rot(r) == r - FULL_TURN,
        wrapped_rot(r) > FULL_TURN,
{
}

} // verus!
