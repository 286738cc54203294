//! One aircraft's kinematic state.
//!
//! Positions use a world frame whose vertical axis grows downward: a more
//! negative `z` means a higher altitude.  Velocities and angular rates are
//! body-frame components.  The attitude is carried as roll/pitch/yaw Euler
//! angles in millidegrees, each normalized into `(-180_000, 180_000]`; the
//! normalized triple is this crate's integer counterpart of a unit
//! quaternion.

use vstd::prelude::*;

verus! {

use crate::fixed::{norm_angle, norm_angle_spec, HALF_TURN};

/// A three-component vector in milli-units.
#[derive(Clone, Copy, Debug, PartialEq, Eq, Structural)]
pub struct V3 {
    pub x: i64,
    pub y: i64,
    pub z: i64,
}

/// Roll/pitch/yaw Euler angles in millidegrees.
#[derive(Clone, Copy, Debug, PartialEq, Eq, Structural)]
pub struct Attitude {
    pub roll: i64,
    pub pitch: i64,
    pub yaw: i64,
}

/// The kinematic state a dynamics engine advances: position (world frame),
/// body-frame velocity, attitude, body-frame angular rates.
#[derive(Clone, Copy, Debug, PartialEq, Eq, Structural)]
pub struct Kinematics {
    pub position: V3,
    pub velocity: V3,
    pub attitude: Attitude,
    pub rates: V3,
}

/// One named control channel and its magnitude in milli-units.
pub type ControlChannel = (String, i64);

/// A vehicle: a name (not required to be unique), the named control inputs
/// last applied to it, and its kinematic state.
pub struct Vehicle {
    pub name: String,
    pub controls: Vec<ControlChannel>,
    pub kin: Kinematics,
}

impl V3 {
    /// The zero vector.
    pub fn zero() -> (r: V3)
        ensures
            r == (V3 { x: 0, y: 0, z: 0 }),
    {
        V3 { x: 0, y: 0, z: 0 }
    }
}

/// Whether each angle of `a` is normalized into `(-180_000, 180_000]`
/// millidegrees.
pub open spec fn attitude_wf(a: Attitude) -> bool {
    &&& -HALF_TURN < a.roll <= HALF_TURN
    &&& -HALF_TURN < a.pitch <= HALF_TURN
    &&& -HALF_TURN < a.yaw <= HALF_TURN
}

/// `a` with each angle normalized into `(-180_000, 180_000]`, the same
/// rotation expressed in the canonical range.
pub open spec fn norm_attitude_spec(a: Attitude) -> Attitude {
    Attitude {
        roll: norm_angle_spec(a.roll as int) as i64,
        pitch: norm_angle_spec(a.pitch as int) as i64,
        yaw: norm_angle_spec(a.yaw as int) as i64,
    }
}

/// Computes [`norm_attitude_spec`]; the result is well-formed.
pub fn norm_attitude(a: Attitude) -> (r: Attitude)
    ensures
        r == norm_attitude_spec(a),
        attitude_wf(r),
{
    Attitude {
        roll: norm_angle(a.roll),
        pitch: norm_angle(a.pitch),
        yaw: norm_angle(a.yaw),
    }
}

impl Vehicle {
    /// A vehicle with explicit initial conditions.  Omitted fields take the
    /// defaults: name "TO", zero position, velocity and rates, identity
    /// (all-zero) attitude.  A supplied attitude is normalized, so every
    /// constructed vehicle carries a well-formed attitude — as the
    /// quaternion form of the same construction is unit-norm for any input
    /// angles.
    pub fn new(
        name: Option<String>,
        position: Option<V3>,
        velocity: Option<V3>,
        attitude: Option<Attitude>,
        rates: Option<V3>,
    ) -> (r: Vehicle)
        ensures
            (match name {
                Some(n) => r.name == n,
                None => r.name@ == "TO"@,
            }),
            r.controls@.len() == 0,
            r.kin.position == (match position {
                Some(p) => p,
                None => V3 { x: 0, y: 0, z: 0 },
            }),
            r.kin.velocity == (match velocity {
                Some(v) => v,
                None => V3 { x: 0, y: 0, z: 0 },
            }),
            r.kin.attitude == (match attitude {
                Some(a) => norm_attitude_spec(a),
                None => Attitude { roll: 0, pitch: 0, yaw: 0 },
            }),
            attitude_wf(r.kin.attitude),
            r.kin.rates == (match rates {
                Some(w) => w,
                None => V3 { x: 0, y: 0, z: 0 },
            }),
    {
        let name = match name {
            Some(n) => n,
            None => String::from_str("TO"),
        };
        let position = match position {
            Some(p) => p,
            None => V3 { x: 0, y: 0, z: 0 },
        };
        let velocity = match velocity {
            Some(v) => v,
            None => V3 { x: 0, y: 0, z: 0 },
        };
        let attitude = match attitude {
            Some(a) => norm_attitude(a),
            None => Attitude { roll: 0, pitch: 0, yaw: 0 },
        };
        let rates = match rates {
            Some(w) => w,
            None => V3 { x: 0, y: 0, z: 0 },
        };
        Vehicle {
            name,
            controls: Vec::new(),
            kin: Kinematics { position, velocity, attitude, rates },
        }
    }

    /// Discards the prior state: position from the argument, velocity
    /// `(airspeed, 0, 0)` in the body frame, attitude a pure-heading rotation
    /// with zero pitch and roll, zero rates, and the given name (default
    /// "TO").  The heading is normalized; the stored attitude is
    /// well-formed.
    pub fn reset(&mut self, position: V3, heading: i64, airspeed: i64, name: Option<String>)
        ensures
            (match name {
                Some(n) => final(self).name == n,
                None => final(self).name@ == "TO"@,
            }),
            final(self).controls@.len() == 0,
            final(self).kin.position == position,
            final(self).kin.velocity == (V3 { x: airspeed, y: 0, z: 0 }),
            final(self).kin.attitude == (Attitude {
                roll: 0,
                pitch: 0,
                yaw: norm_angle_spec(heading as int) as i64,
            }),
            final(self).kin.rates == (V3 { x: 0, y: 0, z: 0 }),
            attitude_wf(final(self).kin.attitude),
    {
        let name = match name {
            Some(n) => n,
            None => String::from_str("TO"),
        };
        let yaw = norm_angle(heading);
        self.name = name;
        self.controls = Vec::new();
        self.kin = Kinematics {
            position,
            velocity: V3 { x: airspeed, y: 0, z: 0 },
            attitude: Attitude { roll: 0, pitch: 0, yaw },
            rates: V3 { x: 0, y: 0, z: 0 },
        };
    }

    /// Stores `controls` as the vehicle's current named control inputs.
    pub fn set_controls(&mut self, controls: Vec<ControlChannel>)
        ensures
            final(self).controls == controls,
            final(self).name == old(self).name,
            final(self).kin == old(self).kin,
    {
        self.controls = controls;
    }

    /// Low-level single-vehicle advance: steps the kinematic state by
    /// `dt_ms` milliseconds under the raw control vector `input`, bypassing
    /// the named channels.
    pub fn step<D: crate::dynamics::Dynamics>(&mut self, engine: &D, dt_ms: i64, input: &Vec<i64>)
        ensures
            final(self).kin == engine.advance_raw_spec(old(self).kin, input@, dt_ms),
            attitude_wf(final(self).kin.attitude),
            final(self).name == old(self).name,
            final(self).controls == old(self).controls,
    {
        self.kin = engine.advance_raw(&self.kin, input, dt_ms);
    }

    /// The world-frame position.
    pub fn position(&self) -> (r: V3)
        ensures
            r == self.kin.position,
    {
        self.kin.position
    }

    /// The body-frame velocity.
    pub fn velocity(&self) -> (r: V3)
        ensures
            r == self.kin.velocity,
    {
        self.kin.velocity
    }

    /// The attitude Euler angles.
    pub fn attitude(&self) -> (r: Attitude)
        ensures
            r == self.kin.attitude,
    {
        self.kin.attitude
    }

    /// The body-frame angular rates.
    pub fn rates(&self) -> (r: V3)
        ensures
            r == self.kin.rates,
    {
        self.kin.rates
    }

    /// The canonical flattened state vector, in the fixed order position(3),
    /// velocity(3), attitude(3), rates(3): the angular rates sit at indices
    /// 9 through 11.
    pub fn state_vector(&self) -> (r: Vec<i64>)
        ensures
            r@ == seq![
                self.kin.position.x,
                self.kin.position.y,
                self.kin.position.z,
                self.kin.velocity.x,
                self.kin.velocity.y,
                self.kin.velocity.z,
                self.kin.attitude.roll,
                self.kin.attitude.pitch,
                self.kin.attitude.yaw,
                self.kin.rates.x,
                self.kin.rates.y,
                self.kin.rates.z,
            ],
    {
        let mut r: Vec<i64> = Vec::new();
        r.push(self.kin.position.x);
        r.push(self.kin.position.y);
        r.push(self.kin.position.z);
        r.push(self.kin.velocity.x);
        r.push(self.kin.velocity.y);
        r.push(self.kin.velocity.z);
        r.push(self.kin.attitude.roll);
        r.push(self.kin.attitude.pitch);
        r.push(self.kin.attitude.yaw);
        r.push(self.kin.rates.x);
        r.push(self.kin.rates.y);
        r.push(self.kin.rates.z);
        proof {
            assert(r@ =~= seq![
                self.kin.position.x,
                self.kin.position.y,
                self.kin.position.z,
                self.kin.velocity.x,
                self.kin.velocity.y,
                self.kin.velocity.z,
                self.kin.attitude.roll,
                self.kin.attitude.pitch,
                self.kin.attitude.yaw,
                self.kin.rates.x,
                self.kin.rates.y,
                self.kin.rates.z,
            ]);
        }
        r
    }

    /// The state vector paired with its conventional component names.
    pub fn labelled_state(&self) -> (r: Vec<(String, i64)>)
        ensures
            r@.len() == 12,
            r@.map_values(|p: (String, i64)| p.1) == seq![
                self.kin.position.x,
                self.kin.position.y,
                self.kin.position.z,
                self.kin.velocity.x,
                self.kin.velocity.y,
                self.kin.velocity.z,
                self.kin.attitude.roll,
                self.kin.attitude.pitch,
                self.kin.attitude.yaw,
                self.kin.rates.x,
                self.kin.rates.y,
                self.kin.rates.z,
            ],
            r@[0].0@ == "x"@ && r@[1].0@ == "y"@ && r@[2].0@ == "z"@,
            r@[3].0@ == "u"@ && r@[4].0@ == "v"@ && r@[5].0@ == "w"@,
            r@[6].0@ == "roll"@ && r@[7].0@ == "pitch"@ && r@[8].0@ == "yaw"@,
            r@[9].0@ == "p"@ && r@[10].0@ == "q"@ && r@[11].0@ == "r"@,
    {
        let mut r: Vec<(String, i64)> = Vec::new();
        r.push((String::from_str("x"), self.kin.position.x));
        r.push((String::from_str("y"), self.kin.position.y));
        r.push((String::from_str("z"), self.kin.position.z));
        r.push((String::from_str("u"), self.kin.velocity.x));
        r.push((String::from_str("v"), self.kin.velocity.y));
        r.push((String::from_str("w"), self.kin.velocity.z));
        r.push((String::from_str("roll"), self.kin.attitude.roll));
        r.push((String::from_str("pitch"), self.kin.attitude.pitch));
        r.push((String::from_str("yaw"), self.kin.attitude.yaw));
        r.push((String::from_str("p"), self.kin.rates.x));
        r.push((String::from_str("q"), self.kin.rates.y));
        r.push((String::from_str("r"), self.kin.rates.z));
        proof {
            assert(r@.map_values(|p: (String, i64)| p.1) =~= seq![
                self.kin.position.x,
                self.kin.position.y,
                self.kin.position.z,
                self.kin.velocity.x,
                self.kin.velocity.y,
                self.kin.velocity.z,
                self.kin.attitude.roll,
                self.kin.attitude.pitch,
                self.kin.attitude.yaw,
                self.kin.rates.x,
                self.kin.rates.y,
                self.kin.rates.z,
            ]);
        }
        r
    }
}

/// Copies a list of control channels, preserving its contents.
pub fn clone_controls(c: &Vec<ControlChannel>) -> (r: Vec<ControlChannel>)
    ensures
        r@ == c@,
{
    let mut r: Vec<ControlChannel> = Vec::new();
    let mut i: usize = 0;
    while i < c.len()
        invariant
            i <= c.len(),
            r@ =~= c@.subrange(0, i as int),
        decreases c.len() - i,
    {
        let name = c[i].0.clone();
        r.push((name, c[i].1));
        i = i + 1;
    }
    proof {
        assert(r@ =~= c@);
    }
    r
}

impl Clone for Vehicle {
    /// An independent snapshot with the same name, controls and kinematics.
    fn clone(&self) -> (r: Vehicle)
        ensures
            r.name == self.name,
            r.controls@ == self.controls@,
            r.kin == self.kin,
    {
        Vehicle {
            name: self.name.clone(),
            controls: clone_controls(&self.controls),
            kin: self.kin,
        }
    }
}

} // verus!
