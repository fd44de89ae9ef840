//! Pointer and touch input reduced into a shared accumulator of pending
//! motion, which the orientation update drains once per frame.
use vstd::prelude::*;

verus! {

/// Angle units per milli-pixel of mouse motion (0.01 radian per pixel).
pub const MOUSE_SENSITIVITY: i64 = 10_000;

/// Angle units per milli-pixel of touch motion (0.01 radian per pixel).
pub const TOUCH_SENSITIVITY: i64 = 10_000;

/// Largest magnitude of a pending motion: a difference of two `i32`
/// positions, scaled by the touch sensitivity.
pub const MAX_PENDING: i64 = 42_949_672_960_000;

/// A screen position in milli-pixels.
#[derive(Clone, Copy, Debug, PartialEq, Eq, Structural)]
pub struct Point {
    pub x: i32,
    pub y: i32,
}

impl Point {
    pub fn origin() -> (p: Point)
        ensures
            p == (Point { x: 0, y: 0 }),
    {
        Point { x: 0, y: 0 }
    }
}

#[derive(Clone, Copy, Debug, PartialEq, Eq, Structural)]
pub enum MouseButton {
    Left,
    Right,
    Middle,
    Other(u16),
}

#[derive(Clone, Copy, Debug, PartialEq, Eq, Structural)]
pub enum ButtonState {
    Pressed,
    Released,
}

/// A mouse button going down or up.
#[derive(Clone, Copy, Debug, PartialEq, Eq, Structural)]
pub struct MouseButtonInput {
    pub button: MouseButton,
    pub state: ButtonState,
}

/// Mouse motion relative to the previous sample, in milli-pixels.
#[derive(Clone, Copy, Debug, PartialEq, Eq, Structural)]
pub struct MouseMotion {
    pub delta: Point,
}

#[derive(Clone, Copy, Debug, PartialEq, Eq, Structural)]
pub enum TouchPhase {
    Started,
    Moved,
    Ended,
    Cancelled,
}

/// A touch event at an absolute position.
#[derive(Clone, Copy, Debug, PartialEq, Eq, Structural)]
pub struct TouchInput {
    pub phase: TouchPhase,
    pub position: Point,
}

/// Drag state and the motion not yet applied to any object.
#[derive(Clone, Copy, Debug, PartialEq, Eq, Structural)]
pub struct InteractionObject {
    /// True while a drag (left mouse button or a touch) is in progress.
    pub mousedown: bool,
    /// Pending rotation, in angle units.
    pub movement_x: i64,
    /// Pending tilt, in angle units.
    pub movement_y: i64,
    /// Where the current touch was last seen.
    pub prev_touch: Point,
}

pub open spec fn pending_in_bounds(m: int) -> bool {
    -MAX_PENDING <= m <= MAX_PENDING
}

impl InteractionObject {
    /// The pending motion fits the bound that every reducer keeps.
    pub open spec fn wf(self) -> bool {
        pending_in_bounds(self.movement_x as int) && pending_in_bounds(self.movement_y as int)
    }

    /// The accumulator with its pending motion set to zero.
    pub open spec fn drained(self) -> InteractionObject {
        InteractionObject { movement_x: 0, movement_y: 0, ..self }
    }

    /// No drag in progress, no pending motion, touch at the origin.
    pub fn new() -> (r: InteractionObject)
        ensures
            r.wf(),
            !r.mousedown,
            r.movement_x == 0,
            r.movement_y == 0,
            r.prev_touch == (Point { x: 0, y: 0 }),
    {
        InteractionObject { mousedown: false, movement_x: 0, movement_y: 0, prev_touch: Point::origin() }
    }

    /// Hands out the pending motion and resets it to zero.
    pub fn take_motion(&mut self) -> (r: (i64, i64))
        ensures
            r == (old(self).movement_x, old(self).movement_y),
            *final(self) == old(self).drained(),
    {
        let r = (self.movement_x, self.movement_y);
        self.movement_x = 0;
        self.movement_y = 0;
        r
    }
}

// ---- single-event transitions ----

pub open spec fn button_step(a: InteractionObject, ev: MouseButtonInput) -> InteractionObject {
    match ev.button {
        MouseButton::Left => match ev.state {
            ButtonState::Pressed => InteractionObject { mousedown: true, ..a },
            ButtonState::Released => InteractionObject { mousedown: false, ..a },
        },
        _ => a,
    }
}

/// While dragging, the pending motion is overwritten (not added to) by the
/// scaled delta; otherwise nothing changes.
pub open spec fn motion_step(a: InteractionObject, ev: MouseMotion) -> InteractionObject {
    if a.mousedown {
        InteractionObject {
            movement_x: (ev.delta.x * MOUSE_SENSITIVITY) as i64,
            movement_y: (ev.delta.y * MOUSE_SENSITIVITY) as i64,
            ..a
        }
    } else {
        a
    }
}

/// A touch start begins a drag at its position; a move while dragging
/// overwrites the pending motion with the scaled distance from the last
/// position and records the new one; an end stops the drag and puts the
/// last position back at the origin; a cancel only stops the drag.
pub open spec fn touch_step(a: InteractionObject, ev: TouchInput) -> InteractionObject {
    match ev.phase {
        TouchPhase::Started => InteractionObject { mousedown: true, prev_touch: ev.position, ..a },
        TouchPhase::Moved => if a.mousedown {
            InteractionObject {
                movement_x: ((ev.position.x - a.prev_touch.x) * TOUCH_SENSITIVITY) as i64,
                movement_y: ((ev.position.y - a.prev_touch.y) * TOUCH_SENSITIVITY) as i64,
                prev_touch: ev.position,
                ..a
            }
        } else {
            a
        },
        TouchPhase::Ended => InteractionObject {
            mousedown: false,
            prev_touch: Point { x: 0, y: 0 },
            ..a
        },
        TouchPhase::Cancelled => InteractionObject { mousedown: false, ..a },
    }
}

// ---- event sequences, applied in order ----

pub open spec fn buttons_applied(a: InteractionObject, evs: Seq<MouseButtonInput>) -> InteractionObject
    decreases evs.len(),
{
    if evs.len() == 0 {
        a
    } else {
        button_step(buttons_applied(a, evs.drop_last()), evs.last())
    }
}

pub open spec fn motions_applied(a: InteractionObject, evs: Seq<MouseMotion>) -> InteractionObject
    decreases evs.len(),
{
    if evs.len() == 0 {
        a
    } else {
        motion_step(motions_applied(a, evs.drop_last()), evs.last())
    }
}

pub open spec fn touches_applied(a: InteractionObject, evs: Seq<TouchInput>) -> InteractionObject
    decreases evs.len(),
{
    if evs.len() == 0 {
        a
    } else {
        touch_step(touches_applied(a, evs.drop_last()), evs.last())
    }
}

// ---- executable reducers ----

fn scaled_delta(to: i32, from: i32, sensitivity: i64) -> (r: i64)
    requires
        0 < sensitivity <= TOUCH_SENSITIVITY,
    ensures
        r == (to - from) * sensitivity,
        pending_in_bounds(r as int),
{
    let d: i64 = to as i64 - from as i64;
    assert(-MAX_PENDING <= d * sensitivity <= MAX_PENDING) by (nonlinear_arith)
        requires
            -4_294_967_295 <= d <= 4_294_967_295,
            0 < sensitivity <= 10_000,
            MAX_PENDING == 42_949_672_960_000i64,
    ;
    d * sensitivity
}

impl InteractionObject {
    /// Applies one mouse button event.
    pub fn apply_button(&mut self, ev: &MouseButtonInput)
        ensures
            *final(self) == button_step(*old(self), *ev),
    {
        match ev.button {
            MouseButton::Left => match ev.state {
                ButtonState::Pressed => self.mousedown = true,
                ButtonState::Released => self.mousedown = false,
            },
            _ => {},
        }
    }

    /// Applies one mouse motion event.
    pub fn apply_motion(&mut self, ev: &MouseMotion)
        requires
            old(self).wf(),
        ensures
            final(self).wf(),
            *final(self) == motion_step(*old(self), *ev),
    {
        if self.mousedown {
            self.movement_x = scaled_delta(ev.delta.x, 0, MOUSE_SENSITIVITY);
            self.movement_y = scaled_delta(ev.delta.y, 0, MOUSE_SENSITIVITY);
        }
    }

    /// Applies one touch event.
    pub fn apply_touch(&mut self, ev: &TouchInput)
        requires
            old(self).wf(),
        ensures
            final(self).wf(),
            *final(self) == touch_step(*old(self), *ev),
    {
        match ev.phase {
            TouchPhase::Started => {
                self.mousedown = true;
                self.prev_touch = ev.position;
            },
            TouchPhase::Moved => {
                if self.mousedown {
                    self.movement_x = scaled_delta(ev.position.x, self.prev_touch.x, TOUCH_SENSITIVITY);
                    self.movement_y = scaled_delta(ev.position.y, self.prev_touch.y, TOUCH_SENSITIVITY);
                    self.prev_touch = ev.position;
                }
            },
            TouchPhase::Ended => {
                self.mousedown = false;
                self.prev_touch = Point::origin();
            },
            TouchPhase::Cancelled => {
                self.mousedown = false;
            },
        }
    }
}

/// Applies the frame's touch events in order.
pub fn touch_events(events: &Vec<TouchInput>, interact: &mut InteractionObject)
    requires
        old(interact).wf(),
    ensures
        final(interact).wf(),
        *final(interact) == touches_applied(*old(interact), events@),
{
    let n = events.len();
    let mut i: usize = 0;
    while i < n
        invariant
            n == events@.len(),
            i <= n,
            interact.wf(),
            *interact == touches_applied(*old(interact), events@.take(i as int)),
        decreases n - i,
    {
        interact.apply_touch(&events[i]);
        assert(events@.take(i + 1).drop_last() =~= events@.take(i as int));
        i = i + 1;
    }
    assert(events@.take(n as int) =~= events@);
}

/// Applies the frame's mouse button events in order. Only the drag state
/// can change.
pub fn mouse_button_events(events: &Vec<MouseButtonInput>, interact: &mut InteractionObject)
    ensures
        *final(interact) == buttons_applied(*old(interact), events@),
        *final(interact) == (InteractionObject { mousedown: final(interact).mousedown, ..*old(interact) }),
{
    let n = events.len();
    let mut i: usize = 0;
    while i < n
        invariant
            n == events@.len(),
            i <= n,
            *interact == (InteractionObject { mousedown: interact.mousedown, ..*old(interact) }),
            *interact == buttons_applied(*old(interact), events@.take(i as int)),
        decreases n - i,
    {
        interact.apply_button(&events[i]);
        assert(events@.take(i + 1).drop_last() =~= events@.take(i as int));
        i = i + 1;
    }
    assert(events@.take(n as int) =~= events@);
}

/// Applies the frame's mouse motion events in order.
pub fn mouse_motion(events: &Vec<MouseMotion>, interact: &mut InteractionObject)
    requires
        old(interact).wf(),
    ensures
        final(interact).wf(),
        *final(interact) == motions_applied(*old(interact), events@),
{
    let n = events.len();
    let mut i: usize = 0;
    while i < n
        invariant
            n == events@.len(),
            i <= n,
            interact.wf(),
            *interact == motions_applied(*old(interact), events@.take(i as int)),
        decreases n - i,
    {
        interact.apply_motion(&events[i]);
        assert(events@.take(i + 1).drop_last() =~= events@.take(i as int));
        i = i + 1;
    }
    assert(events@.take(n as int) =~= events@);
}

} // verus!
