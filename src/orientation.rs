//! Per-frame orientation update of the viewed objects.
use vstd::prelude::*;
use crate::angle::{
    clamp_tilt, clamped_tilt, lemma_clamp_bounds, lemma_wrap_one_turn, within_limit, wrap_rot,
    wrapped_rot, FULL_TURN, HALF_TURN,
};
use crate::input::{pending_in_bounds, InteractionObject};

verus! {

/// Keyboard turn speed, in angle units per microsecond (0.5 radian per second).
pub const ROTATION_SPEED: i64 = 500;

/// Orientation of one viewed object, in angle units.
#[derive(Clone, Copy, Debug, PartialEq, Eq, Structural)]
pub struct ViewerObject {
    /// Rotation about the vertical axis.
    pub rot: i64,
    /// Tilt towards or away from the viewer.
    pub tilt: i64,
}

/// Which of the four turn keys are held during the frame.
#[derive(Clone, Copy, Debug, PartialEq, Eq, Structural)]
pub struct HeldKeys {
    pub w: bool,
    pub a: bool,
    pub s: bool,
    pub d: bool,
}

/// Change from a pair of opposing keys held for `dt` microseconds: the
/// first adds, the second subtracts, and both together cancel.
pub open spec fn key_delta(plus: bool, minus: bool, dt: int) -> int {
    (if plus { ROTATION_SPEED * dt } else { 0 }) - (if minus { ROTATION_SPEED * dt } else { 0 })
}

/// Rotation after one frame: pending motion and the `D`/`A` keys are
/// added, then the result is wrapped once.
pub open spec fn next_rot(rot: int, dx: int, keys: HeldKeys, dt: int) -> int {
    wrapped_rot(rot + dx + key_delta(keys.d, keys.a, dt))
}

/// Tilt after one frame: pending motion and the `S`/`W` keys are added,
/// then the result is clamped.
pub open spec fn next_tilt(tilt: int, dy: int, keys: HeldKeys, dt: int) -> int {
    clamped_tilt(tilt + dy + key_delta(keys.s, keys.w, dt))
}

impl HeldKeys {
    pub fn none() -> (k: HeldKeys)
        ensures
            !k.w && !k.a && !k.s && !k.d,
    {
        HeldKeys { w: false, a: false, s: false, d: false }
    }
}

fn key_step(plus: bool, minus: bool, dt_micros: u32) -> (r: i64)
    ensures
        r == key_delta(plus, minus, dt_micros as int),
        -2_147_483_647_500 <= r <= 2_147_483_647_500,
{
    let step: i64 = ROTATION_SPEED * dt_micros as i64;
    let mut r: i64 = 0;
    if plus {
        r = r + step;
    }
    if minus {
        r = r - step;
    }
    r
}

impl ViewerObject {
    /// A freshly placed object faces forward, untilted.
    pub fn new() -> (o: ViewerObject)
        ensures
            o.rot == 0,
            o.tilt == 0,
    {
        ViewerObject { rot: 0, tilt: 0 }
    }

    /// Both angles are small enough for one more frame update.
    pub open spec fn within_limits(self) -> bool {
        within_limit(self.rot as int) && within_limit(self.tilt as int)
    }

    /// Adds the motion `(dx, dy)` and the held keys' turn over `dt_micros`,
    /// then clamps the tilt and wraps the rotation.
    pub fn advance(&mut self, dx: i64, dy: i64, keys: &HeldKeys, dt_micros: u32)
        requires
            old(self).within_limits(),
            pending_in_bounds(dx as int),
            pending_in_bounds(dy as int),
        ensures
            final(self).rot == next_rot(old(self).rot as int, dx as int, *keys, dt_micros as int),
            final(self).tilt == next_tilt(old(self).tilt as int, dy as int, *keys, dt_micros as int),
    {
        let rot = self.rot + dx + key_step(keys.d, keys.a, dt_micros);
        let tilt = self.tilt + dy + key_step(keys.s, keys.w, dt_micros);
        self.tilt = clamp_tilt(tilt);
        self.rot = wrap_rot(rot);
    }
}

/// Motion that object `i` receives in a frame: the first object takes
/// all pending motion, and the drain leaves none for the rest.
pub open spec fn motion_for(i: int, pending: i64) -> int {
    if i == 0 { pending as int } else { 0 }
}

/// Advances every object by one frame, in order. The first object
/// consumes the pending pointer motion, which is then reset to zero, so
/// later objects only turn by the held keys. With no objects the pending
/// motion is left in place.
pub fn rotate_block(
    dt_micros: u32,
    keys: &HeldKeys,
    objects: &mut Vec<ViewerObject>,
    interact: &mut InteractionObject,
)
    requires
        old(interact).wf(),
        forall|i: int| 0 <= i < old(objects).len() ==> (#[trigger] old(objects)[i]).within_limits(),
    ensures
        final(objects).len() == old(objects).len(),
        forall|i: int|
            0 <= i < old(objects).len() ==> {
                &&& (#[trigger] final(objects)[i]).rot == next_rot(
                    old(objects)[i].rot as int,
                    motion_for(i, old(interact).movement_x),
                    *keys,
                    dt_micros as int,
                )
                &&& final(objects)[i].tilt == next_tilt(
                    old(objects)[i].tilt as int,
                    motion_for(i, old(interact).movement_y),
                    *keys,
                    dt_micros as int,
                )
            },
        old(objects).len() > 0 ==> *final(interact) == old(interact).drained(),
        old(objects).len() == 0 ==> *final(interact) == *old(interact),
{
    let n = objects.len();
    let mut i: usize = 0;
    while i < n
        invariant
            n == objects.len() == old(objects).len(),
            i <= n,
            interact.wf(),
            i == 0 ==> *interact == *old(interact),
            i > 0 ==> *interact == old(interact).drained(),
            forall|j: int| i <= j < n ==> #[trigger] objects[j] == old(objects)[j],
            forall|j: int| 0 <= j < n ==> (#[trigger] old(objects)[j]).within_limits(),
            forall|j: int|
                0 <= j < i ==> {
                    &&& (#[trigger] objects[j]).rot == next_rot(
                        old(objects)[j].rot as int,
                        motion_for(j, old(interact).movement_x),
                        *keys,
                        dt_micros as int,
                    )
                    &&& objects[j].tilt == next_tilt(
                        old(objects)[j].tilt as int,
                        motion_for(j, old(interact).movement_y),
                        *keys,
                        dt_micros as int,
                    )
                },
        decreases n - i,
    {
        let (dx, dy) = interact.take_motion();
        let mut object = objects[i];
        object.advance(dx, dy, keys, dt_micros);
        objects.set(i, object);
        i = i + 1;
    }
}

/// Draining the pending motion leaves exactly zero, and draining again
/// changes nothing.
pub proof fn lemma_drain_idempotent(a: InteractionObject)
    ensures
        a.drained().movement_x == 0,
        a.drained().movement_y == 0,
        a.drained().drained() == a.drained(),
{
}

/// A frame with no motion and no keys leaves a normalised object as it
/// was: a second drain within a frame turns nothing.
pub proof fn lemma_idle_frame_is_identity(rot: int, tilt: int, dt: int)
    requires
        0 <= rot <= FULL_TURN,
        -HALF_TURN <= tilt <= HALF_TURN,
    ensures
        next_rot(rot, 0, HeldKeys { w: false, a: false, s: false, d: false }, dt) == rot,
        next_tilt(tilt, 0, HeldKeys { w: false, a: false, s: false, d: false }, dt) == tilt,
{
    lemma_wrap_one_turn(rot);
    lemma_clamp_bounds(tilt);
}

/// Over any sequence of frames, an object that starts normalised stays
/// normalised as long as no frame turns it by more than one full turn:
/// the rotation stays in `[0, FULL_TURN]` and the tilt in
/// `[-HALF_TURN, HALF_TURN]`.
pub proof fn lemma_frame_keeps_range(rot: int, dx: int, tilt: int, dy: int, keys: HeldKeys, dt: int)
    requires
        0 <= rot <= FULL_TURN,
        -FULL_TURN <= dx + key_delta(keys.d, keys.a, dt) <= FULL_TURN,
    ensures
        0 <= next_rot(rot, dx, keys, dt) <= FULL_TURN,
        -HALF_TURN <= next_tilt(tilt, dy, keys, dt) <= HALF_TURN,
{
    lemma_wrap_one_turn(rot + dx + key_delta(keys.d, keys.a, dt));
    lemma_clamp_bounds(tilt + dy + key_delta(keys.s, keys.w, dt));
}

} // verus!
