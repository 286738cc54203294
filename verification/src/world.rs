//! The world: an ordered collection of vehicles, at most one runway, and
//! the camera/screen/asset-path configuration around them.
//!
//! Insertion order is the stable index used by `step`, `act` and the
//! queries.  Stepping advances every vehicle independently from its own
//! pre-step state, so no vehicle observes another vehicle's post-step state
//! within one tick.  Precondition violations — querying runway geometry
//! before a runway exists, a controls list whose length does not match the
//! vehicle count, an index out of range — are reported as [`WorldError`]
//! values and never mutate any state.

use vstd::prelude::*;

verus! {

use crate::dynamics::Dynamics;
use crate::runway::{
    approach_points_spec, heading_wf, on_runway_spec, runway_wf, standard_runway_spec, Heading,
    Point2, Runway, TouchdownPoints, COORD_LIMIT,
};
use crate::vehicle::{attitude_wf, clone_controls, ControlChannel, Vehicle, V3};

/// A recoverable precondition violation reported by [`World`] operations.
#[derive(Clone, Copy, Debug, PartialEq, Eq, Structural)]
pub enum WorldError {
    /// Runway geometry was queried before any runway was created.
    NoRunway,
    /// `act` received one controls entry per vehicle short or over.
    ControlCountMismatch { expected: usize, provided: usize },
    /// A vehicle index at or past the end of the collection.
    VehicleIndexOutOfRange { index: usize, len: usize },
}

impl WorldError {
    /// A human-readable description of the violation.
    pub fn message(&self) -> (r: String)
        ensures
            (match self {
                WorldError::NoRunway => r@ == "No runway in world, call `create_runway` first"@,
                WorldError::ControlCountMismatch { .. } => r@
                    == "controls list length does not match the vehicle count"@,
                WorldError::VehicleIndexOutOfRange { .. } => r@
                    == "vehicle index out of range"@,
            }),
    {
        match self {
            WorldError::NoRunway => String::from_str(
                "No runway in world, call `create_runway` first",
            ),
            WorldError::ControlCountMismatch { .. } => String::from_str(
                "controls list length does not match the vehicle count",
            ),
            WorldError::VehicleIndexOutOfRange { .. } => String::from_str(
                "vehicle index out of range",
            ),
        }
    }
}

/// The world that owns the vehicles and the optional runway.
pub struct World {
    /// The vehicles, in insertion order; the index is the stable handle.
    pub vehicles: Vec<Vehicle>,
    /// The runway, absent until explicitly created.
    pub runway: Option<Runway>,
    /// Camera position.
    pub camera: V3,
    /// Screen width in milli-pixels.
    pub screen_width: i64,
    /// Screen height in milli-pixels.
    pub screen_height: i64,
    /// Directory path the renderer loads assets from.
    pub assets_dir: String,
    /// Directory path terrain data is loaded from.
    pub terrain_data_dir: String,
    /// Render-mode tag.
    pub render_type: String,
}

/// Whether the world's runway, if any, is within the geometry's machine
/// bounds.
pub open spec fn world_wf(w: World) -> bool {
    match w.runway {
        Some(r) => runway_wf(r),
        None => true,
    }
}

/// Whether `a` and `b` agree on everything but the vehicle collection.
pub open spec fn same_surroundings(a: World, b: World) -> bool {
    &&& a.runway == b.runway
    &&& a.camera == b.camera
    &&& a.screen_width == b.screen_width
    &&& a.screen_height == b.screen_height
    &&& a.assets_dir == b.assets_dir
    &&& a.terrain_data_dir == b.terrain_data_dir
    &&& a.render_type == b.render_type
}

impl World {
    /// An empty world: no vehicles, no runway, zeroed camera and screen,
    /// empty paths and render tag.
    pub fn new() -> (r: World)
        ensures
            r.vehicles@.len() == 0,
            r.runway is None,
            r.camera == (V3 { x: 0, y: 0, z: 0 }),
            r.screen_width == 0,
            r.screen_height == 0,
            r.assets_dir@ == ""@,
            r.terrain_data_dir@ == ""@,
            r.render_type@ == ""@,
            world_wf(r),
    {
        World {
            vehicles: Vec::new(),
            runway: None,
            camera: V3 { x: 0, y: 0, z: 0 },
            screen_width: 0,
            screen_height: 0,
            assets_dir: String::from_str(""),
            terrain_data_dir: String::from_str(""),
            render_type: String::from_str(""),
        }
    }

    /// The number of vehicles.
    pub fn vehicle_count(&self) -> (r: usize)
        ensures
            r == self.vehicles@.len(),
    {
        self.vehicles.len()
    }

    /// Appends a vehicle; its index is the vehicle count before the call.
    pub fn add_vehicle(&mut self, v: Vehicle)
        ensures
            final(self).vehicles@ == old(self).vehicles@.push(v),
            same_surroundings(*final(self), *old(self)),
    {
        self.vehicles.push(v);
    }

    /// Replaces the vehicle at `index` wholesale, or reports the index as
    /// out of range and changes nothing.
    pub fn update_vehicle(&mut self, v: Vehicle, index: usize) -> (r: Result<(), WorldError>)
        ensures
            (match r {
                Ok(()) => index < old(self).vehicles@.len() && final(self).vehicles@ == old(
                    self,
                ).vehicles@.update(index as int, v),
                Err(e) => index >= old(self).vehicles@.len() && e
                    == (WorldError::VehicleIndexOutOfRange {
                    index,
                    len: old(self).vehicles@.len() as usize,
                }) && *final(self) == *old(self),
            }),
            same_surroundings(*final(self), *old(self)),
    {
        if index < self.vehicles.len() {
            self.vehicles.set(index, v);
            Ok(())
        } else {
            Err(WorldError::VehicleIndexOutOfRange { index, len: self.vehicles.len() })
        }
    }

    /// An independent snapshot of the vehicle at `index`, or an
    /// out-of-range report.
    pub fn get_vehicle(&self, index: usize) -> (r: Result<Vehicle, WorldError>)
        ensures
            (match r {
                Ok(v) => index < self.vehicles@.len() && v.name == self.vehicles@[
                    index as int
                ].name && v.controls@ == self.vehicles@[index as int].controls@ && v.kin
                    == self.vehicles@[index as int].kin,
                Err(e) => index >= self.vehicles@.len() && e
                    == (WorldError::VehicleIndexOutOfRange {
                    index,
                    len: self.vehicles@.len() as usize,
                }),
            }),
    {
        if index < self.vehicles.len() {
            Ok(self.vehicles[index].clone())
        } else {
            Err(WorldError::VehicleIndexOutOfRange { index, len: self.vehicles.len() })
        }
    }

    /// Independent snapshots of all vehicles, in index order.
    pub fn vehicles_snapshot(&self) -> (r: Vec<Vehicle>)
        ensures
            r@.len() == self.vehicles@.len(),
            forall|i: int| 0 <= i < r@.len() ==> {
                &&& (#[trigger] r@[i]).name == self.vehicles@[i].name
                &&& r@[i].controls@ == self.vehicles@[i].controls@
                &&& r@[i].kin == self.vehicles@[i].kin
            },
    {
        let mut r: Vec<Vehicle> = Vec::new();
        let mut i: usize = 0;
        while i < self.vehicles.len()
            invariant
                i <= self.vehicles@.len(),
                r@.len() == i,
                forall|j: int| 0 <= j < i ==> {
                    &&& (#[trigger] r@[j]).name == self.vehicles@[j].name
                    &&& r@[j].controls@ == self.vehicles@[j].controls@
                    &&& r@[j].kin == self.vehicles@[j].kin
                },
            decreases self.vehicles@.len() - i,
        {
            r.push(self.vehicles[i].clone());
            i = i + 1;
        }
        r
    }

    /// Hands each vehicle its index-aligned entry of `controls`.  If the
    /// list's length does not match the vehicle count, reports the mismatch
    /// and leaves every vehicle unchanged.
    pub fn act(&mut self, controls: Vec<Vec<ControlChannel>>) -> (r: Result<(), WorldError>)
        ensures
            (match r {
                Ok(()) => {
                    &&& controls@.len() == old(self).vehicles@.len()
                    &&& final(self).vehicles@.len() == old(self).vehicles@.len()
                    &&& forall|i: int| 0 <= i < old(self).vehicles@.len() ==> {
                        &&& (#[trigger] final(self).vehicles@[i]).name == old(
                            self,
                        ).vehicles@[i].name
                        &&& final(self).vehicles@[i].kin == old(self).vehicles@[i].kin
                        &&& final(self).vehicles@[i].controls == controls@[i]
                    }
                },
                Err(e) => {
                    &&& controls@.len() != old(self).vehicles@.len()
                    &&& e == (WorldError::ControlCountMismatch {
                        expected: old(self).vehicles@.len() as usize,
                        provided: controls@.len() as usize,
                    })
                    &&& *final(self) == *old(self)
                },
            }),
            same_surroundings(*final(self), *old(self)),
    {
        let n = self.vehicles.len();
        if controls.len() != n {
            return Err(WorldError::ControlCountMismatch {
                expected: n,
                provided: controls.len(),
            });
        }
        let ghost orig = *self;
        let ghost orig_controls = controls@;
        let mut rem = controls;
        let mut updated: Vec<Vehicle> = Vec::new();
        let mut i: usize = 0;
        while i < n
            invariant
                i <= n,
                n == self.vehicles@.len(),
                *self == orig,
                rem@ == orig_controls.subrange(i as int, n as int),
                updated@.len() == i,
                orig_controls.len() == n,
                forall|j: int| 0 <= j < i ==> {
                    &&& (#[trigger] updated@[j]).name == orig.vehicles@[j].name
                    &&& updated@[j].kin == orig.vehicles@[j].kin
                    &&& updated@[j].controls == orig_controls[j]
                },
            decreases n - i,
        {
            let c = rem.remove(0);
            let name = self.vehicles[i].name.clone();
            let kin = self.vehicles[i].kin;
            updated.push(Vehicle { name, controls: c, kin });
            i = i + 1;
        }
        self.vehicles = updated;
        Ok(())
    }

    /// Advances every vehicle by exactly `dt_ms` milliseconds, in ascending
    /// index order, each vehicle independently from its own pre-step state.
    pub fn step<D: Dynamics>(&mut self, engine: &D, dt_ms: i64)
        ensures
            final(self).vehicles@.len() == old(self).vehicles@.len(),
            forall|i: int| 0 <= i < old(self).vehicles@.len() ==> {
                &&& (#[trigger] final(self).vehicles@[i]).name == old(self).vehicles@[i].name
                &&& final(self).vehicles@[i].controls@ == old(self).vehicles@[i].controls@
                &&& final(self).vehicles@[i].kin == engine.advance_spec(
                    old(self).vehicles@[i].kin,
                    old(self).vehicles@[i].controls@,
                    dt_ms,
                )
                &&& attitude_wf(final(self).vehicles@[i].kin.attitude)
            },
            same_surroundings(*final(self), *old(self)),
    {
        let ghost orig = *self;
        let n = self.vehicles.len();
        let mut updated: Vec<Vehicle> = Vec::new();
        let mut i: usize = 0;
        while i < n
            invariant
                i <= n,
                n == self.vehicles@.len(),
                *self == orig,
                updated@.len() == i,
                forall|j: int| 0 <= j < i ==> {
                    &&& (#[trigger] updated@[j]).name == orig.vehicles@[j].name
                    &&& updated@[j].controls@ == orig.vehicles@[j].controls@
                    &&& updated@[j].kin == engine.advance_spec(
                        orig.vehicles@[j].kin,
                        orig.vehicles@[j].controls@,
                        dt_ms,
                    )
                    &&& attitude_wf(updated@[j].kin.attitude)
                },
            decreases n - i,
        {
            let next_kin = engine.advance(&self.vehicles[i].kin, &self.vehicles[i].controls, dt_ms);
            let name = self.vehicles[i].name.clone();
            let controls = clone_controls(&self.vehicles[i].controls);
            updated.push(Vehicle { name, controls, kin: next_kin });
            i = i + 1;
        }
        self.vehicles = updated;
    }

    /// Creates the runway on first call, then overwrites only the supplied
    /// fields; fields set by earlier calls are never reset to defaults.
    pub fn create_runway(
        &mut self,
        position: Option<Point2>,
        width: Option<i64>,
        length: Option<i64>,
        heading: Option<Heading>,
    )
        requires
            world_wf(*old(self)),
            (match position {
                Some(p) => -COORD_LIMIT <= p.x <= COORD_LIMIT && -COORD_LIMIT <= p.y
                    <= COORD_LIMIT,
                None => true,
            }),
            (match width {
                Some(w) => 0 <= w <= COORD_LIMIT,
                None => true,
            }),
            (match length {
                Some(l) => 0 <= l <= COORD_LIMIT,
                None => true,
            }),
            (match heading {
                Some(h) => heading_wf(h),
                None => true,
            }),
        ensures
            ({
                let base = match old(self).runway {
                    Some(r) => r,
                    None => standard_runway_spec(),
                };
                final(self).runway == Some(Runway {
                    center: match position {
                        Some(p) => p,
                        None => base.center,
                    },
                    width: match width {
                        Some(w) => w,
                        None => base.width,
                    },
                    length: match length {
                        Some(l) => l,
                        None => base.length,
                    },
                    heading: match heading {
                        Some(h) => h,
                        None => base.heading,
                    },
                })
            }),
            world_wf(*final(self)),
            final(self).vehicles == old(self).vehicles,
            final(self).camera == old(self).camera,
            final(self).screen_width == old(self).screen_width,
            final(self).screen_height == old(self).screen_height,
            final(self).assets_dir == old(self).assets_dir,
            final(self).terrain_data_dir == old(self).terrain_data_dir,
            final(self).render_type == old(self).render_type,
    {
        let base = match self.runway {
            Some(r) => r,
            None => Runway::standard(),
        };
        self.runway = Some(base.with_overrides(position, width, length, heading));
    }

    /// Whether `p` lies on the runway, or [`WorldError::NoRunway`] if no
    /// runway exists yet.
    pub fn point_on_runway(&self, p: Point2) -> (r: Result<bool, WorldError>)
        requires
            world_wf(*self),
            -COORD_LIMIT <= p.x <= COORD_LIMIT,
            -COORD_LIMIT <= p.y <= COORD_LIMIT,
        ensures
            (match self.runway {
                Some(rw) => r == Ok::<bool, WorldError>(on_runway_spec(rw, p)),
                None => r == Err::<bool, WorldError>(WorldError::NoRunway),
            }),
    {
        match &self.runway {
            Some(rw) => Ok(rw.on_runway(p)),
            None => Err(WorldError::NoRunway),
        }
    }

    /// The landing reference points of the runway, or
    /// [`WorldError::NoRunway`] if no runway exists yet.
    pub fn touchdown_points(&self) -> (r: Result<TouchdownPoints, WorldError>)
        requires
            world_wf(*self),
        ensures
            (match self.runway {
                Some(rw) => r == Ok::<TouchdownPoints, WorldError>(approach_points_spec(rw)),
                None => r == Err::<TouchdownPoints, WorldError>(WorldError::NoRunway),
            }),
    {
        match &self.runway {
            Some(rw) => Ok(rw.approach_points()),
            None => Err(WorldError::NoRunway),
        }
    }

    /// Sets the screen dimensions.
    pub fn set_screen_dims(&mut self, width: i64, height: i64)
        ensures
            final(self).screen_width == width,
            final(self).screen_height == height,
            final(self).vehicles == old(self).vehicles,
            final(self).runway == old(self).runway,
            final(self).camera == old(self).camera,
            final(self).assets_dir == old(self).assets_dir,
            final(self).terrain_data_dir == old(self).terrain_data_dir,
            final(self).render_type == old(self).render_type,
    {
        self.screen_width = width;
        self.screen_height = height;
    }

    /// The screen dimensions as a (width, height) pair.
    pub fn screen_dims(&self) -> (r: (i64, i64))
        ensures
            r.0 == self.screen_width,
            r.1 == self.screen_height,
    {
        (self.screen_width, self.screen_height)
    }

    /// Moves the camera.
    pub fn set_camera_pos(&mut self, pos: V3)
        ensures
            final(self).camera == pos,
            final(self).vehicles == old(self).vehicles,
            final(self).runway == old(self).runway,
            final(self).screen_width == old(self).screen_width,
            final(self).screen_height == old(self).screen_height,
            final(self).assets_dir == old(self).assets_dir,
            final(self).terrain_data_dir == old(self).terrain_data_dir,
            final(self).render_type == old(self).render_type,
    {
        self.camera = pos;
    }

    /// The camera position.
    pub fn camera_pos(&self) -> (r: V3)
        ensures
            r == self.camera,
    {
        self.camera
    }

    /// Sets the assets directory path.
    pub fn set_assets_dir(&mut self, dir: String)
        ensures
            final(self).assets_dir == dir,
            final(self).vehicles == old(self).vehicles,
            final(self).runway == old(self).runway,
            final(self).camera == old(self).camera,
            final(self).screen_width == old(self).screen_width,
            final(self).screen_height == old(self).screen_height,
            final(self).terrain_data_dir == old(self).terrain_data_dir,
            final(self).render_type == old(self).render_type,
    {
        self.assets_dir = dir;
    }

    /// The assets directory path.
    pub fn assets_dir(&self) -> (r: String)
        ensures
            r == self.assets_dir,
    {
        self.assets_dir.clone()
    }

    /// Sets the terrain-data directory path.
    pub fn set_terrain_data_dir(&mut self, dir: String)
        ensures
            final(self).terrain_data_dir == dir,
            final(self).vehicles == old(self).vehicles,
            final(self).runway == old(self).runway,
            final(self).camera == old(self).camera,
            final(self).screen_width == old(self).screen_width,
            final(self).screen_height == old(self).screen_height,
            final(self).assets_dir == old(self).assets_dir,
            final(self).render_type == old(self).render_type,
    {
        self.terrain_data_dir = dir;
    }

    /// The terrain-data directory path.
    pub fn terrain_data_dir(&self) -> (r: String)
        ensures
            r == self.terrain_data_dir,
    {
        self.terrain_data_dir.clone()
    }

    /// Sets the render-mode tag.
    pub fn set_render_type(&mut self, tag: String)
        ensures
            final(self).render_type == tag,
            final(self).vehicles == old(self).vehicles,
            final(self).runway == old(self).runway,
            final(self).camera == old(self).camera,
            final(self).screen_width == old(self).screen_width,
            final(self).screen_height == old(self).screen_height,
            final(self).assets_dir == old(self).assets_dir,
            final(self).terrain_data_dir == old(self).terrain_data_dir,
    {
        self.render_type = tag;
    }

    /// The render-mode tag.
    pub fn render_type(&self) -> (r: String)
        ensures
            r == self.render_type,
    {
        self.render_type.clone()
    }
}

} // verus!
