//! Core of a small fixed-wing flight simulator: vehicle rigid-body state,
//! a safety envelope ("has this vehicle crashed?"), runway geometry,
//! deterministic multi-vehicle stepping, and a particle-swarm search for
//! trimmed (steady) flight control settings.
//!
//! All quantities are carried as fixed-point integers so that every rule in
//! this crate can be verified exactly:
//! - distances and positions in milli-units (1000 = one world unit),
//! - velocities in milli-units per second,
//! - angles in millidegrees (1000 = one degree),
//! - trigonometric ratios in micro-units (1_000_000 = 1.0),
//! - control magnitudes in milli-units (1000 = full scale),
//! - time in milliseconds.
//!
//! The rigid-body integration itself is an external collaborator: it is
//! reached through the [`dynamics::Dynamics`] trait, whose contract pins the
//! stepping loop down without fixing any particular flight model.

pub mod dynamics;
pub mod fixed;
pub mod rng;
pub mod trim;
pub mod runway;
pub mod safety;
pub mod vehicle;
pub mod world;
