//! The bouncing-disc animation rule.
//!
//! Positions are kept in millipixels (one thousandth of a pixel) and
//! velocities in pixels per second, so that one tick of `dt` milliseconds
//! moves the disc by exactly `velocity * dt` millipixels and every value is
//! an integer. Each tick translates the disc and then reflects a velocity
//! component elastically when the disc's leading edge has crossed a bound of
//! the window rectangle; the check looks at the translated position, so a
//! reflected frame still keeps that frame's translation.

use vstd::prelude::*;

verus! {

/// Millipixels per pixel: the fixed-point scale of positions.
pub const MPX_PER_PX: i64 = 1000;

/// Radius of the disc, in pixels.
pub const DISC_RADIUS_PX: i64 = 50;

/// Radius of the disc, in millipixels.
pub const DISC_RADIUS_MPX: i64 = 50000;

/// Horizontal speed the animation starts with, in pixels per second.
pub const START_VEL_X: i64 = 200;

/// Vertical speed the animation starts with, in pixels per second.
pub const START_VEL_Y: i64 = 150;

/// Largest speed a component may carry, in pixels per second.
pub const MAX_SPEED: i64 = 1000000;

/// Largest time step one tick may take, in milliseconds.
pub const MAX_TICK_MS: u32 = 1000000;

/// Largest position magnitude, in millipixels, at which a tick is still
/// known free of overflow; far beyond any window.
pub const MAX_POS_MPX: i64 = 0x80000000000000;

/// Where the disc's centre lands after translating for `dt` milliseconds:
/// `pos + vel * dt` in millipixels.
pub open spec fn translated(pos: int, vel: int, dt: int) -> int {
    pos + vel * dt
}

/// True when a disc centred at `pos` millipixels sticks out of the axis
/// interval from zero to `bound_px` pixels.
pub open spec fn crosses_bound(pos: int, bound_px: int) -> bool {
    pos - DISC_RADIUS_MPX < 0 || pos + DISC_RADIUS_MPX > bound_px * MPX_PER_PX
}

/// The velocity component after the reflection check at the translated
/// position `pos`: negated exactly when the disc crossed a bound.
pub open spec fn reflected_vel(pos: int, vel: int, bound_px: int) -> int {
    if crosses_bound(pos, bound_px) {
        -vel
    } else {
        vel
    }
}

/// Animation state: disc centre in millipixels, velocity in pixels per
/// second, and the window rectangle it bounces in, in pixels.
pub struct AnimationState {
    pub pos_x: i64,
    pub pos_y: i64,
    pub vel_x: i64,
    pub vel_y: i64,
    pub width: u32,
    pub height: u32,
}

impl AnimationState {
    /// Both velocity components are within the speed limit.
    pub open spec fn wf(self) -> bool {
        &&& -MAX_SPEED <= self.vel_x <= MAX_SPEED
        &&& -MAX_SPEED <= self.vel_y <= MAX_SPEED
    }

    /// The position is still in the range where a tick cannot overflow.
    pub open spec fn pos_in_range(self) -> bool {
        &&& -MAX_POS_MPX <= self.pos_x <= MAX_POS_MPX
        &&& -MAX_POS_MPX <= self.pos_y <= MAX_POS_MPX
    }

    /// Runtime check for [`Self::pos_in_range`], for callers outside the
    /// verified library.
    pub fn position_in_range(&self) -> (r: bool)
        ensures
            r == self.pos_in_range(),
    {
        -MAX_POS_MPX <= self.pos_x && self.pos_x <= MAX_POS_MPX && -MAX_POS_MPX <= self.pos_y
            && self.pos_y <= MAX_POS_MPX
    }

    /// Starts the animation in a window of `width` by `height` pixels:
    /// the disc sits at the window's centre and moves with the fixed
    /// starting velocity.
    pub fn new(width: u32, height: u32) -> (r: AnimationState)
        ensures
            r.pos_x == width * 500,
            r.pos_y == height * 500,
            r.vel_x == START_VEL_X,
            r.vel_y == START_VEL_Y,
            r.width == width,
            r.height == height,
            r.wf(),
            r.pos_in_range(),
    {
        AnimationState {
            pos_x: width as i64 * 500,
            pos_y: height as i64 * 500,
            vel_x: START_VEL_X,
            vel_y: START_VEL_Y,
            width,
            height,
        }
    }

    /// Moves the bounding rectangle to a new window size; the disc's
    /// position and velocity are untouched.
    pub fn set_bounds(&mut self, width: u32, height: u32)
        ensures
            final(self).width == width,
            final(self).height == height,
            final(self).pos_x == old(self).pos_x,
            final(self).pos_y == old(self).pos_y,
            final(self).vel_x == old(self).vel_x,
            final(self).vel_y == old(self).vel_y,
    {
        self.width = width;
        self.height = height;
    }

    /// One animation tick of `dt_ms` milliseconds: translate by
    /// `velocity * dt`, then reflect each velocity component whose axis the
    /// disc has crossed a bound on. The translated position is kept even on
    /// a reflecting tick.
    pub fn tick(&mut self, dt_ms: u32)
        requires
            old(self).wf(),
            old(self).pos_in_range(),
            0 < dt_ms <= MAX_TICK_MS,
        ensures
            final(self).pos_x == translated(old(self).pos_x as int, old(self).vel_x as int, dt_ms as int),
            final(self).pos_y == translated(old(self).pos_y as int, old(self).vel_y as int, dt_ms as int),
            final(self).vel_x == reflected_vel(final(self).pos_x as int, old(self).vel_x as int, old(self).width as int),
            final(self).vel_y == reflected_vel(final(self).pos_y as int, old(self).vel_y as int, old(self).height as int),
            final(self).width == old(self).width,
            final(self).height == old(self).height,
            final(self).wf(),
    {
        proof {
            mul_bound(old(self).vel_x as int, dt_ms as int);
            mul_bound(old(self).vel_y as int, dt_ms as int);
        }
        let dt: i64 = dt_ms as i64;
        let nx: i64 = self.pos_x + self.vel_x * dt;
        let ny: i64 = self.pos_y + self.vel_y * dt;
        self.pos_x = nx;
        self.pos_y = ny;
        let width_mpx: i64 = self.width as i64 * MPX_PER_PX;
        let height_mpx: i64 = self.height as i64 * MPX_PER_PX;
        if nx - DISC_RADIUS_MPX < 0 || nx + DISC_RADIUS_MPX > width_mpx {
            self.vel_x = -self.vel_x;
        }
        if ny - DISC_RADIUS_MPX < 0 || ny + DISC_RADIUS_MPX > height_mpx {
            self.vel_y = -self.vel_y;
        }
    }
}

/// A velocity within the speed limit moves the disc at most
/// `MAX_SPEED * MAX_TICK_MS` millipixels in one tick.
proof fn mul_bound(vel: int, dt: int)
    requires
        -MAX_SPEED <= vel <= MAX_SPEED,
        0 < dt <= MAX_TICK_MS,
    ensures
        -(MAX_SPEED * MAX_TICK_MS) <= vel * dt <= MAX_SPEED * MAX_TICK_MS,
{
    assert(-(MAX_SPEED * MAX_TICK_MS) <= vel * dt <= MAX_SPEED * MAX_TICK_MS) by (nonlinear_arith)
        requires
            -MAX_SPEED <= vel <= MAX_SPEED,
            0 < dt <= MAX_TICK_MS,
    ;
}

/// Translation law: for every tick delta `dt > 0` the centre lands at
/// `position + velocity * dt` before any reflection is applied, and the
/// reflection check never moves it afterwards.
pub proof fn lemma_translation(pos: int, vel: int, dt: int)
    requires
        dt > 0,
    ensures
        translated(pos, vel, dt) == pos + vel * dt,
{
}

/// Reflection law: when the translated disc sticks out of a bound on an
/// axis, that axis's velocity component is exactly negated, and otherwise
/// kept; either way the component's magnitude is unchanged.
pub proof fn lemma_reflection(pos: int, vel: int, bound_px: int)
    ensures
        crosses_bound(pos, bound_px) ==> reflected_vel(pos, vel, bound_px) == -vel,
        !crosses_bound(pos, bound_px) ==> reflected_vel(pos, vel, bound_px) == vel,
        vstd::math::abs(reflected_vel(pos, vel, bound_px)) == vstd::math::abs(vel),
{
}

} // verus!
