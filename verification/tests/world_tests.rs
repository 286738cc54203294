use flyer_core::dynamics::PointMassDynamics;
use flyer_core::runway::{Heading, Point2};
use flyer_core::vehicle::{Vehicle, V3};
use flyer_core::world::{World, WorldError};

fn vehicle_at(name: &str, x: i64, vx: i64) -> Vehicle {
    Vehicle::new(
        Some(String::from(name)),
        Some(V3 { x, y: 0, z: -10_000 }),
        Some(V3 { x: vx, y: 0, z: 0 }),
        None,
        None,
    )
}

#[test]
fn new_world_is_empty() {
    let w = World::new();
    assert_eq!(w.vehicle_count(), 0);
    assert!(w.runway.is_none());
}

#[test]
fn add_vehicle_appends_in_order() {
    let mut w = World::new();
    w.add_vehicle(vehicle_at("A", 0, 0));
    w.add_vehicle(vehicle_at("B", 1_000, 0));
    assert_eq!(w.vehicle_count(), 2);
    assert_eq!(w.get_vehicle(0).unwrap().name, "A");
    assert_eq!(w.get_vehicle(1).unwrap().name, "B");
}

#[test]
fn update_vehicle_replaces_in_place() {
    let mut w = World::new();
    w.add_vehicle(vehicle_at("A", 0, 0));
    w.add_vehicle(vehicle_at("B", 1_000, 0));
    assert_eq!(w.update_vehicle(vehicle_at("C", 2_000, 0), 1), Ok(()));
    assert_eq!(w.get_vehicle(1).unwrap().name, "C");
    assert_eq!(w.get_vehicle(0).unwrap().name, "A");
}

#[test]
fn update_vehicle_out_of_range_is_reported() {
    let mut w = World::new();
    w.add_vehicle(vehicle_at("A", 0, 0));
    let r = w.update_vehicle(vehicle_at("B", 0, 0), 1);
    assert_eq!(r, Err(WorldError::VehicleIndexOutOfRange { index: 1, len: 1 }));
    assert_eq!(w.get_vehicle(0).unwrap().name, "A");
    assert_eq!(w.vehicle_count(), 1);
}

#[test]
fn get_vehicle_returns_independent_copy() {
    let mut w = World::new();
    w.add_vehicle(vehicle_at("A", 5_000, 0));
    let mut copy = w.get_vehicle(0).unwrap();
    copy.reset(V3 { x: 0, y: 0, z: 0 }, 0, 0, None);
    // mutating the copy does not touch the world's vehicle
    assert_eq!(w.get_vehicle(0).unwrap().kin.position.x, 5_000);
}

// A controls list one element shorter than the vehicle count fails with a
// precondition error and leaves every vehicle unchanged.
#[test]
fn act_length_mismatch_changes_nothing() {
    let mut w = World::new();
    w.add_vehicle(vehicle_at("A", 0, 1_000));
    w.add_vehicle(vehicle_at("B", 9_000, 2_000));
    let before: Vec<Vehicle> = w.vehicles_snapshot();
    let r = w.act(vec![vec![(String::from("throttle"), 500)]]);
    assert_eq!(r, Err(WorldError::ControlCountMismatch { expected: 2, provided: 1 }));
    let after: Vec<Vehicle> = w.vehicles_snapshot();
    assert_eq!(before.len(), after.len());
    for (b, a) in before.iter().zip(after.iter()) {
        assert_eq!(b.name, a.name);
        assert_eq!(b.kin, a.kin);
        assert_eq!(b.controls, a.controls);
    }
}

#[test]
fn act_distributes_controls_by_index() {
    let mut w = World::new();
    w.add_vehicle(vehicle_at("A", 0, 0));
    w.add_vehicle(vehicle_at("B", 0, 0));
    let r = w.act(vec![
        vec![(String::from("throttle"), 100)],
        vec![(String::from("throttle"), 900), (String::from("aileron"), -50)],
    ]);
    assert_eq!(r, Ok(()));
    assert_eq!(w.get_vehicle(0).unwrap().controls, vec![(String::from("throttle"), 100)]);
    assert_eq!(
        w.get_vehicle(1).unwrap().controls,
        vec![(String::from("throttle"), 900), (String::from("aileron"), -50)],
    );
}

#[test]
fn step_advances_every_vehicle_once() {
    let mut w = World::new();
    w.add_vehicle(vehicle_at("A", 0, 1_000));
    w.add_vehicle(vehicle_at("B", 10_000, -2_000));
    let engine = PointMassDynamics {};
    w.step(&engine, 1_000);
    // one second at 1 unit/s and -2 units/s respectively
    assert_eq!(w.get_vehicle(0).unwrap().kin.position.x, 1_000);
    assert_eq!(w.get_vehicle(1).unwrap().kin.position.x, 8_000);
    // velocities are untouched
    assert_eq!(w.get_vehicle(0).unwrap().kin.velocity.x, 1_000);
    assert_eq!(w.get_vehicle(1).unwrap().kin.velocity.x, -2_000);
}

// Querying runway geometry before create_runway is an error, not false.
#[test]
fn point_on_runway_without_runway_is_an_error() {
    let w = World::new();
    let r = w.point_on_runway(Point2 { x: 0, y: 0 });
    assert_eq!(r, Err(WorldError::NoRunway));
}

#[test]
fn touchdown_points_without_runway_is_an_error() {
    let w = World::new();
    assert_eq!(w.touchdown_points().unwrap_err(), WorldError::NoRunway);
}

#[test]
fn create_runway_then_query() {
    let mut w = World::new();
    w.create_runway(
        Some(Point2 { x: 0, y: 0 }),
        Some(30_000),
        Some(60_000),
        Some(Heading::zero()),
    );
    assert_eq!(w.point_on_runway(Point2 { x: 0, y: 0 }), Ok(true));
    assert_eq!(w.point_on_runway(Point2 { x: 20_000, y: 0 }), Ok(false));
    let points = w.touchdown_points().unwrap();
    assert_eq!(points.far_threshold, Point2 { x: 0, y: 30_000 });
    assert_eq!(points.near_threshold, Point2 { x: 0, y: -30_000 });
}

// A later partial create_runway call never resets fields set earlier.
#[test]
fn create_runway_partial_calls_accumulate() {
    let mut w = World::new();
    w.create_runway(None, Some(42_000), None, None);
    w.create_runway(None, None, Some(77_000), None);
    let runway = w.runway.unwrap();
    assert_eq!(runway.width, 42_000);
    assert_eq!(runway.length, 77_000);
}

#[test]
fn no_runway_message_text() {
    assert_eq!(
        WorldError::NoRunway.message(),
        "No runway in world, call `create_runway` first",
    );
}

#[test]
fn world_accessors_round_trip() {
    let mut w = World::new();
    w.set_screen_dims(400_000, 300_000);
    assert_eq!(w.screen_dims(), (400_000, 300_000));
    w.set_camera_pos(V3 { x: 1, y: 2, z: 3 });
    assert_eq!(w.camera_pos(), V3 { x: 1, y: 2, z: 3 });
    w.set_assets_dir(String::from("assets"));
    assert_eq!(w.assets_dir(), "assets");
    w.set_terrain_data_dir(String::from("terrain"));
    assert_eq!(w.terrain_data_dir(), "terrain");
    w.set_render_type(String::from("aircraft"));
    assert_eq!(w.render_type(), "aircraft");
}
