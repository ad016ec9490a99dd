use vstd::prelude::*;

use crate::math::{move_toward, move_toward_spec};

verus! {

/// Microseconds in a second.
pub const MICROS: u64 = 1_000_000;

/// Default ring acceleration: a tenth of pi radians per second squared, in
/// microradians per second squared.
pub const DEFAULT_RING_ACCELERATION: u64 = 314_159;

/// The change of velocity allowed in `dt` microseconds at acceleration `accel`.
pub open spec fn velocity_step(accel: int, dt: int) -> int {
    accel * dt / MICROS as int
}

/// The angle a ring turns through in `dt` microseconds at velocity `v`: a ring
/// with a velocity of zero or below stands still.
pub open spec fn turn_angle(v: int, dt: int) -> int {
    if v > 0 { v * dt / MICROS as int } else { 0 }
}

/// The angles, in microradians, that the rings turn through in one tick.
#[derive(Clone, Copy, Debug, PartialEq, Eq, Structural)]
pub struct RingTurn {
    pub inner: u128,
    pub outer: u128,
}

/// A gate with an inner and an outer ring, each of whose angular velocity
/// (microradians per second) ramps toward its target at a common acceleration.
#[derive(Clone, Copy, Debug)]
pub struct Jumpgate {
    ring_acceleration: u64,
    target_inner_velocity: i64,
    target_outer_velocity: i64,
    inner_velocity: i64,
    outer_velocity: i64,
}

fn velocity_step_exec(accel: u64, dt: u64) -> (r: u64)
    ensures
        r as int == if velocity_step(accel as int, dt as int) <= u64::MAX {
            velocity_step(accel as int, dt as int)
        } else {
            u64::MAX as int
        },
{
    let a = accel as u128;
    let d = dt as u128;
    proof {
        assert(a * d <= 0xffff_ffff_ffff_ffff * 0xffff_ffff_ffff_ffffu128) by (nonlinear_arith)
            requires
                a <= 0xffff_ffff_ffff_ffff,
                d <= 0xffff_ffff_ffff_ffff,
        ;
    }
    let s = a * d / (MICROS as u128);
    if s <= u64::MAX as u128 { s as u64 } else { u64::MAX }
}

fn turn_angle_exec(v: i64, dt: u64) -> (r: u128)
    ensures
        r as int == turn_angle(v as int, dt as int),
{
    if v > 0 {
        let a = v as u128;
        let d = dt as u128;
        proof {
            assert(a * d <= 0xffff_ffff_ffff_ffff * 0xffff_ffff_ffff_ffffu128) by (nonlinear_arith)
                requires
                    a <= 0xffff_ffff_ffff_ffff,
                    d <= 0xffff_ffff_ffff_ffff,
            ;
        }
        a * d / (MICROS as u128)
    } else {
        0
    }
}

impl Jumpgate {
    pub closed spec fn accel(self) -> int {
        self.ring_acceleration as int
    }

    pub closed spec fn target_inner(self) -> int {
        self.target_inner_velocity as int
    }

    pub closed spec fn target_outer(self) -> int {
        self.target_outer_velocity as int
    }

    pub closed spec fn inner_vel(self) -> int {
        self.inner_velocity as int
    }

    pub closed spec fn outer_vel(self) -> int {
        self.outer_velocity as int
    }

    /// A gate with both rings at rest and both targets at zero.
    pub fn new(ring_acceleration: u64) -> (r: Jumpgate)
        ensures
            r.accel() == ring_acceleration,
            r.target_inner() == 0,
            r.target_outer() == 0,
            r.inner_vel() == 0,
            r.outer_vel() == 0,
    {
        Jumpgate {
            ring_acceleration,
            target_inner_velocity: 0,
            target_outer_velocity: 0,
            inner_velocity: 0,
            outer_velocity: 0,
        }
    }

    pub fn ring_acceleration(&self) -> (r: u64)
        ensures
            r == self.accel(),
    {
        self.ring_acceleration
    }

    pub fn target_inner_velocity(&self) -> (r: i64)
        ensures
            r == self.target_inner(),
    {
        self.target_inner_velocity
    }

    pub fn target_outer_velocity(&self) -> (r: i64)
        ensures
            r == self.target_outer(),
    {
        self.target_outer_velocity
    }

    /// Sets the velocity toward which the inner ring ramps.
    pub fn set_target_inner_velocity(&mut self, v: i64)
        ensures
            final(self).target_inner() == v,
            final(self).target_outer() == old(self).target_outer(),
            final(self).accel() == old(self).accel(),
            final(self).inner_vel() == old(self).inner_vel(),
            final(self).outer_vel() == old(self).outer_vel(),
    {
        self.target_inner_velocity = v;
    }

    /// Sets the velocity toward which the outer ring ramps.
    pub fn set_target_outer_velocity(&mut self, v: i64)
        ensures
            final(self).target_outer() == v,
            final(self).target_inner() == old(self).target_inner(),
            final(self).accel() == old(self).accel(),
            final(self).inner_vel() == old(self).inner_vel(),
            final(self).outer_vel() == old(self).outer_vel(),
    {
        self.target_outer_velocity = v;
    }

    pub fn inner_velocity(&self) -> (r: i64)
        ensures
            r == self.inner_vel(),
    {
        self.inner_velocity
    }

    pub fn outer_velocity(&self) -> (r: i64)
        ensures
            r == self.outer_vel(),
    {
        self.outer_velocity
    }

    /// One tick of `dt` microseconds: each ring's velocity steps toward its
    /// target by at most the acceleration times `dt`, and each ring turns by
    /// its new velocity times `dt` if that velocity is positive.
    pub fn handle_rotation(&mut self, dt: u64) -> (r: RingTurn)
        ensures
            final(self).accel() == old(self).accel(),
            final(self).target_inner() == old(self).target_inner(),
            final(self).target_outer() == old(self).target_outer(),
            final(self).inner_vel() == move_toward_spec(
                old(self).inner_vel(),
                old(self).target_inner(),
                velocity_step(old(self).accel(), dt as int),
            ),
            final(self).outer_vel() == move_toward_spec(
                old(self).outer_vel(),
                old(self).target_outer(),
                velocity_step(old(self).accel(), dt as int),
            ),
            r.inner == turn_angle(final(self).inner_vel(), dt as int),
            r.outer == turn_angle(final(self).outer_vel(), dt as int),
    {
        let step = velocity_step_exec(self.ring_acceleration, dt);
        proof {
            assert(0 <= velocity_step(self.ring_acceleration as int, dt as int)) by (nonlinear_arith)
                requires
                    self.ring_acceleration >= 0,
                    dt >= 0,
            ;
        }
        if self.inner_velocity != self.target_inner_velocity {
            self.inner_velocity = move_toward(self.inner_velocity, self.target_inner_velocity, step);
        }
        if self.outer_velocity != self.target_outer_velocity {
            self.outer_velocity = move_toward(self.outer_velocity, self.target_outer_velocity, step);
        }
        RingTurn {
            inner: turn_angle_exec(self.inner_velocity, dt),
            outer: turn_angle_exec(self.outer_velocity, dt),
        }
    }
}

/// A tick never carries a ring's velocity past its target: the velocity lies
/// between where it was and the target, and one that has reached its target stays.
pub proof fn lemma_no_overshoot(v: int, target: int, accel: int, dt: int)
    requires
        accel >= 0,
        dt >= 0,
    ensures
        v <= target ==> v <= move_toward_spec(v, target, velocity_step(accel, dt)) <= target,
        v >= target ==> target <= move_toward_spec(v, target, velocity_step(accel, dt)) <= v,
        move_toward_spec(target, target, velocity_step(accel, dt)) == target,
{
    assert(velocity_step(accel, dt) >= 0) by (nonlinear_arith)
        requires
            accel >= 0,
            dt >= 0,
    ;
}

} // verus!
