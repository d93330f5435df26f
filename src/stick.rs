use vstd::prelude::*;

verus! {

/// Full deflection of a stick axis, in ten-thousandths.
pub const STICK_FULL: i32 = 10000;

/// Deflection below which an axis counts as resting.
pub const DEADZONE: i32 = 2000;

/// Normalised sideways deflection beyond which a strafing flip leaves the
/// ground, in ten-thousandths (the sine of 25 degrees).
pub const SIDE_LEAN: i32 = 4226;

/// The sideways part of the unit vector along `(x, y)` exceeds
/// `SIDE_LEAN / STICK_FULL`.
pub open spec fn leans_right_of(x: int, y: int) -> bool {
    x > 0 && (STICK_FULL * STICK_FULL) * (x * x) > (SIDE_LEAN * SIDE_LEAN) * (x * x + y * y)
}

/// The sideways part of the unit vector along `(x, y)` falls below
/// `-SIDE_LEAN / STICK_FULL`.
pub open spec fn leans_left_of(x: int, y: int) -> bool {
    leans_right_of(-x, y)
}

/// The left stick of a gamepad: each axis in ten-thousandths of full
/// deflection, right and up positive.
#[derive(Clone, Copy, Debug, PartialEq, Eq)]
pub struct Stick {
    pub x: i32,
    pub y: i32,
}

impl Stick {
    /// Both axes lie within full deflection.
    pub open spec fn wf(&self) -> bool {
        -STICK_FULL <= self.x <= STICK_FULL && -STICK_FULL <= self.y <= STICK_FULL
    }

    /// A stick reading, with each axis clamped to full deflection.
    pub fn clamped(x: i32, y: i32) -> (s: Stick)
        ensures
            s.wf(),
            -STICK_FULL <= x <= STICK_FULL ==> s.x == x,
            -STICK_FULL <= y <= STICK_FULL ==> s.y == y,
            x > STICK_FULL ==> s.x == STICK_FULL,
            x < -STICK_FULL ==> s.x == -STICK_FULL,
            y > STICK_FULL ==> s.y == STICK_FULL,
            y < -STICK_FULL ==> s.y == -STICK_FULL,
    {
        let cx = if x > STICK_FULL {
            STICK_FULL
        } else if x < -STICK_FULL {
            -STICK_FULL
        } else {
            x
        };
        let cy = if y > STICK_FULL {
            STICK_FULL
        } else if y < -STICK_FULL {
            -STICK_FULL
        } else {
            y
        };
        Stick { x: cx, y: cy }
    }

    /// Some axis is pushed beyond the dead zone.
    pub open spec fn tilted(&self) -> bool {
        self.x > DEADZONE || self.x < -DEADZONE || self.y > DEADZONE || self.y < -DEADZONE
    }

    /// Both axes are pushed at least to the edge of the dead zone.
    pub open spec fn tilted_on_both(&self) -> bool {
        (self.x >= DEADZONE || self.x <= -DEADZONE) && (self.y >= DEADZONE || self.y <= -DEADZONE)
    }

    /// Some axis is pushed beyond the dead zone.
    pub fn is_tilted(&self) -> (r: bool)
        ensures
            r == self.tilted(),
    {
        self.x > DEADZONE || self.x < -DEADZONE || self.y > DEADZONE || self.y < -DEADZONE
    }

    /// Both axes are pushed at least to the edge of the dead zone.
    pub fn is_tilted_on_both(&self) -> (r: bool)
        ensures
            r == self.tilted_on_both(),
    {
        !(self.x < DEADZONE && self.x > -DEADZONE) && !(self.y < DEADZONE && self.y > -DEADZONE)
    }

    /// The stick reads exactly zero on both axes.
    pub fn is_centered(&self) -> (r: bool)
        ensures
            r == (self.x == 0 && self.y == 0),
    {
        self.x == 0 && self.y == 0
    }

    /// The stick, read as a direction, points to the right by more than
    /// 25 degrees off the vertical.
    pub fn leans_right(&self) -> (r: bool)
        requires
            self.wf(),
        ensures
            r == leans_right_of(self.x as int, self.y as int),
    {
        lean_beyond(self.x, self.y)
    }

    /// The stick, read as a direction, points to the left by more than
    /// 25 degrees off the vertical.
    pub fn leans_left(&self) -> (r: bool)
        requires
            self.wf(),
        ensures
            r == leans_left_of(self.x as int, self.y as int),
    {
        lean_beyond(-self.x, self.y)
    }
}

fn lean_beyond(x: i32, y: i32) -> (r: bool)
    requires
        -STICK_FULL <= x <= STICK_FULL,
        -STICK_FULL <= y <= STICK_FULL,
    ensures
        r == leans_right_of(x as int, y as int),
{
    assert(0 <= x * x <= 100_000_000) by (nonlinear_arith)
        requires
            -10000 <= x <= 10000,
    ;
    assert(0 <= y * y <= 100_000_000) by (nonlinear_arith)
        requires
            -10000 <= y <= 10000,
    ;
    let xx = (x as i64) * (x as i64);
    let yy = (y as i64) * (y as i64);
    let full: i64 = 100_000_000;
    let lean: i64 = 17_859_076;
    assert(full == STICK_FULL * STICK_FULL && lean == SIDE_LEAN * SIDE_LEAN);
    x > 0 && full * xx > lean * (xx + yy)
}

} // verus!
