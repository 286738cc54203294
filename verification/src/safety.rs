//! The safety envelope: decides whether a vehicle state counts as crashed.
//!
//! Near the ground the envelope never fires: with the downward-positive
//! vertical axis, `position.z` above the ground-exemption ceiling means the
//! vehicle is rolling on or hovering just over the runway, and ground-roll is
//! outside the airborne envelope.  Airborne, the state is terminal as soon as
//! any single limit is exceeded: forward or vertical velocity too high, or
//! pitch outside its band.

use vstd::prelude::*;

verus! {

use crate::vehicle::Kinematics;

/// Ground exemption: `z` above this (closer to, at, or below ground level)
/// disables every check.  -5 units.
pub const GROUND_EXEMPT_Z: i64 = -5_000;

/// Maximum forward (body `u`) velocity, 200 units/s.
pub const MAX_FORWARD_VELOCITY: i64 = 200_000;

/// Maximum vertical (body `w`) velocity, 60 units/s.
pub const MAX_VERTICAL_VELOCITY: i64 = 60_000;

/// Minimum pitch, -5 degrees.
pub const MIN_PITCH: i64 = -5_000;

/// Maximum pitch, 30 degrees.
pub const MAX_PITCH: i64 = 30_000;

/// The limits of the safety envelope, a named and overridable configuration.
#[derive(Clone, Copy, Debug, PartialEq, Eq, Structural)]
pub struct SafetyLimits {
    /// `position.z` above this value exempts the state from every check.
    pub ground_exempt_z: i64,
    /// Largest allowed forward velocity.
    pub max_forward_velocity: i64,
    /// Largest allowed vertical velocity.
    pub max_vertical_velocity: i64,
    /// Smallest allowed pitch angle, millidegrees.
    pub min_pitch: i64,
    /// Largest allowed pitch angle, millidegrees.
    pub max_pitch: i64,
}

/// Whether `k` violates the envelope `limits`: false whenever the ground
/// exemption applies, otherwise true iff any one limit is exceeded.
pub open spec fn crashed_spec(limits: SafetyLimits, k: Kinematics) -> bool {
    if k.position.z > limits.ground_exempt_z {
        false
    } else {
        ||| k.velocity.x > limits.max_forward_velocity
        ||| k.velocity.z > limits.max_vertical_velocity
        ||| k.attitude.pitch < limits.min_pitch
        ||| k.attitude.pitch > limits.max_pitch
    }
}

impl SafetyLimits {
    /// The standard envelope.
    pub fn standard() -> (r: SafetyLimits)
        ensures
            r == (SafetyLimits {
                ground_exempt_z: GROUND_EXEMPT_Z,
                max_forward_velocity: MAX_FORWARD_VELOCITY,
                max_vertical_velocity: MAX_VERTICAL_VELOCITY,
                min_pitch: MIN_PITCH,
                max_pitch: MAX_PITCH,
            }),
    {
        SafetyLimits {
            ground_exempt_z: GROUND_EXEMPT_Z,
            max_forward_velocity: MAX_FORWARD_VELOCITY,
            max_vertical_velocity: MAX_VERTICAL_VELOCITY,
            min_pitch: MIN_PITCH,
            max_pitch: MAX_PITCH,
        }
    }

    /// Pure crash decision for `k` against these limits.
    pub fn is_crashed(&self, k: &Kinematics) -> (r: bool)
        ensures
            r == crashed_spec(*self, *k),
    {
        if k.position.z > self.ground_exempt_z {
            false
        } else if k.velocity.x > self.max_forward_velocity {
            true
        } else if k.velocity.z > self.max_vertical_velocity {
            true
        } else if k.attitude.pitch < self.min_pitch {
            true
        } else {
            k.attitude.pitch > self.max_pitch
        }
    }
}

} // verus!
