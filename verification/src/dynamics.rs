//! The dynamics engine boundary.
//!
//! Rigid-body integration is an external collaborator of this core: given a
//! kinematic state, the controls applied to the vehicle, and a time delta,
//! it returns the next state.  The [`Dynamics`] trait pins that collaborator
//! down just enough for the stepping loop to be exact: every engine names
//! its own transition function `advance_spec`, promises that `advance`
//! computes exactly that function (so stepping is deterministic and each
//! vehicle's next state depends on its own prior state alone), and returns a
//! normalized attitude, the integer counterpart of keeping the attitude
//! quaternion unit-norm after every mutation.
//!
//! [`PointMassDynamics`] is a minimal verified engine: it propagates
//! position by the body velocity and attitude by the angular rates, leaving
//! both velocities unchanged and ignoring the control channels.  It stands
//! in for a full flight model in tests and examples.

use vstd::prelude::*;

verus! {

use crate::fixed::{
    norm_angle, norm_angle_spec, sat_add, sat_i64, sat_mul, tdiv, tdiv_spec, MILLI,
};
use crate::vehicle::{attitude_wf, Attitude, ControlChannel, Kinematics, V3};

/// A rigid-body dynamics engine: advances one vehicle's kinematic state by a
/// time delta under its current controls.
pub trait Dynamics {
    /// The engine's transition function: the state that advancing `k` under
    /// `controls` by `dt_ms` milliseconds reaches.
    spec fn advance_spec(&self, k: Kinematics, controls: Seq<ControlChannel>, dt_ms: i64)
        -> Kinematics;

    /// Advances `k` by `dt_ms` milliseconds, computing exactly
    /// `advance_spec` and returning a well-formed attitude.
    fn advance(&self, k: &Kinematics, controls: &Vec<ControlChannel>, dt_ms: i64) -> (r:
        Kinematics)
        ensures
            r == self.advance_spec(*k, controls@, dt_ms),
            attitude_wf(r.attitude),
    ;

    /// The engine's transition function under a raw (positional) control
    /// vector that bypasses the named channels.
    spec fn advance_raw_spec(&self, k: Kinematics, input: Seq<i64>, dt_ms: i64) -> Kinematics;

    /// Advances `k` by `dt_ms` milliseconds under the raw control vector
    /// `input`, computing exactly `advance_raw_spec` and returning a
    /// well-formed attitude.
    fn advance_raw(&self, k: &Kinematics, input: &Vec<i64>, dt_ms: i64) -> (r: Kinematics)
        ensures
            r == self.advance_raw_spec(*k, input@, dt_ms),
            attitude_wf(r.attitude),
    ;
}

/// The displacement accumulated in `dt_ms` milliseconds at `rate` per
/// second, saturating, added saturating onto `base`.
pub open spec fn propagate_spec(base: i64, rate: i64, dt_ms: i64) -> int {
    sat_i64(base + tdiv_spec(sat_i64((rate as int) * (dt_ms as int)), MILLI as int))
}

/// The transition function of [`PointMassDynamics`].
pub open spec fn point_mass_spec(k: Kinematics, dt_ms: i64) -> Kinematics {
    Kinematics {
        position: V3 {
            x: propagate_spec(k.position.x, k.velocity.x, dt_ms) as i64,
            y: propagate_spec(k.position.y, k.velocity.y, dt_ms) as i64,
            z: propagate_spec(k.position.z, k.velocity.z, dt_ms) as i64,
        },
        velocity: k.velocity,
        attitude: Attitude {
            roll: norm_angle_spec(propagate_spec(k.attitude.roll, k.rates.x, dt_ms)) as i64,
            pitch: norm_angle_spec(propagate_spec(k.attitude.pitch, k.rates.y, dt_ms)) as i64,
            yaw: norm_angle_spec(propagate_spec(k.attitude.yaw, k.rates.z, dt_ms)) as i64,
        },
        rates: k.rates,
    }
}

/// A minimal engine: constant body velocity and angular rates, position and
/// attitude propagated by them, controls ignored.
pub struct PointMassDynamics {}

/// One component propagated: `base + rate * dt / 1000`, saturating.
fn propagate(base: i64, rate: i64, dt_ms: i64) -> (r: i64)
    ensures
        r as int == propagate_spec(base, rate, dt_ms),
{
    sat_add(base, tdiv(sat_mul(rate, dt_ms), MILLI))
}

impl Dynamics for PointMassDynamics {
    open spec fn advance_spec(&self, k: Kinematics, controls: Seq<ControlChannel>, dt_ms: i64)
        -> Kinematics {
        point_mass_spec(k, dt_ms)
    }

    fn advance(&self, k: &Kinematics, controls: &Vec<ControlChannel>, dt_ms: i64) -> (r:
        Kinematics) {
        point_mass_advance(k, dt_ms)
    }

    open spec fn advance_raw_spec(&self, k: Kinematics, input: Seq<i64>, dt_ms: i64)
        -> Kinematics {
        point_mass_spec(k, dt_ms)
    }

    fn advance_raw(&self, k: &Kinematics, input: &Vec<i64>, dt_ms: i64) -> (r: Kinematics) {
        point_mass_advance(k, dt_ms)
    }
}

/// Computes [`point_mass_spec`].
fn point_mass_advance(k: &Kinematics, dt_ms: i64) -> (r: Kinematics)
    ensures
        r == point_mass_spec(*k, dt_ms),
        attitude_wf(r.attitude),
{
    Kinematics {
        position: V3 {
            x: propagate(k.position.x, k.velocity.x, dt_ms),
            y: propagate(k.position.y, k.velocity.y, dt_ms),
            z: propagate(k.position.z, k.velocity.z, dt_ms),
        },
        velocity: k.velocity,
        attitude: Attitude {
            roll: norm_angle(propagate(k.attitude.roll, k.rates.x, dt_ms)),
            pitch: norm_angle(propagate(k.attitude.pitch, k.rates.y, dt_ms)),
            yaw: norm_angle(propagate(k.attitude.yaw, k.rates.z, dt_ms)),
        },
        rates: k.rates,
    }
}

} // verus!
