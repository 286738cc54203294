use flyer_core::dynamics::PointMassDynamics;
use flyer_core::vehicle::{Attitude, Vehicle, V3};

#[test]
fn new_vehicle_defaults() {
    let v = Vehicle::new(None, None, None, None, None);
    assert_eq!(v.name, "TO");
    assert_eq!(v.kin.position, V3 { x: 0, y: 0, z: 0 });
    assert_eq!(v.kin.velocity, V3 { x: 0, y: 0, z: 0 });
    assert_eq!(v.kin.attitude, Attitude { roll: 0, pitch: 0, yaw: 0 });
    assert_eq!(v.kin.rates, V3 { x: 0, y: 0, z: 0 });
    assert!(v.controls.is_empty());
}

#[test]
fn new_vehicle_explicit_fields() {
    let v = Vehicle::new(
        Some(String::from("N100")),
        Some(V3 { x: 1_000, y: 2_000, z: -3_000 }),
        Some(V3 { x: 50_000, y: 0, z: 0 }),
        Some(Attitude { roll: 1_000, pitch: 2_000, yaw: 3_000 }),
        Some(V3 { x: 10, y: 20, z: 30 }),
    );
    assert_eq!(v.name, "N100");
    assert_eq!(v.kin.position, V3 { x: 1_000, y: 2_000, z: -3_000 });
    assert_eq!(v.kin.velocity, V3 { x: 50_000, y: 0, z: 0 });
    assert_eq!(v.kin.attitude, Attitude { roll: 1_000, pitch: 2_000, yaw: 3_000 });
    assert_eq!(v.kin.rates, V3 { x: 10, y: 20, z: 30 });
}

// reset(position=[0,0,-100], heading=0, airspeed=50) yields velocity
// (50,0,0), zero rates, zero pitch and roll.
#[test]
fn reset_level_heading_zero() {
    let mut v = Vehicle::new(None, None, None, None, None);
    v.reset(V3 { x: 0, y: 0, z: -100_000 }, 0, 50_000, None);
    assert_eq!(v.kin.position, V3 { x: 0, y: 0, z: -100_000 });
    assert_eq!(v.kin.velocity, V3 { x: 50_000, y: 0, z: 0 });
    assert_eq!(v.kin.rates, V3 { x: 0, y: 0, z: 0 });
    assert_eq!(v.kin.attitude.roll, 0);
    assert_eq!(v.kin.attitude.pitch, 0);
    assert_eq!(v.kin.attitude.yaw, 0);
    assert_eq!(v.name, "TO");
}

#[test]
fn reset_normalizes_heading() {
    let mut v = Vehicle::new(None, None, None, None, None);
    // 270 degrees wraps to -90 degrees
    v.reset(V3 { x: 0, y: 0, z: 0 }, 270_000, 10_000, Some(String::from("A1")));
    assert_eq!(v.kin.attitude.yaw, -90_000);
    assert_eq!(v.name, "A1");
    // -450 degrees wraps to -90 degrees
    v.reset(V3 { x: 0, y: 0, z: 0 }, -450_000, 10_000, None);
    assert_eq!(v.kin.attitude.yaw, -90_000);
    // 180 degrees stays 180 degrees (upper bound inclusive)
    v.reset(V3 { x: 0, y: 0, z: 0 }, 180_000, 10_000, None);
    assert_eq!(v.kin.attitude.yaw, 180_000);
    // -180 degrees wraps to +180 degrees
    v.reset(V3 { x: 0, y: 0, z: 0 }, -180_000, 10_000, None);
    assert_eq!(v.kin.attitude.yaw, 180_000);
}

#[test]
fn state_vector_layout() {
    let v = Vehicle::new(
        None,
        Some(V3 { x: 1, y: 2, z: 3 }),
        Some(V3 { x: 4, y: 5, z: 6 }),
        Some(Attitude { roll: 7, pitch: 8, yaw: 9 }),
        Some(V3 { x: 10, y: 11, z: 12 }),
    );
    // position(3), velocity(3), attitude(3), rates(3): rates at indices 9..=11
    assert_eq!(v.state_vector(), vec![1, 2, 3, 4, 5, 6, 7, 8, 9, 10, 11, 12]);
}

#[test]
fn labelled_state_names() {
    let v = Vehicle::new(
        None,
        Some(V3 { x: 1, y: 2, z: 3 }),
        Some(V3 { x: 4, y: 5, z: 6 }),
        Some(Attitude { roll: 7, pitch: 8, yaw: 9 }),
        Some(V3 { x: 10, y: 11, z: 12 }),
    );
    let labelled = v.labelled_state();
    let expected = [
        ("x", 1),
        ("y", 2),
        ("z", 3),
        ("u", 4),
        ("v", 5),
        ("w", 6),
        ("roll", 7),
        ("pitch", 8),
        ("yaw", 9),
        ("p", 10),
        ("q", 11),
        ("r", 12),
    ];
    assert_eq!(labelled.len(), expected.len());
    for (got, want) in labelled.iter().zip(expected.iter()) {
        assert_eq!(got.0, want.0);
        assert_eq!(got.1, want.1);
    }
}

#[test]
fn vehicle_clone_is_independent_snapshot() {
    let mut v = Vehicle::new(Some(String::from("A")), None, None, None, None);
    v.set_controls(vec![(String::from("throttle"), 500)]);
    let snap = v.clone();
    v.reset(V3 { x: 9, y: 9, z: 9 }, 0, 1, Some(String::from("B")));
    assert_eq!(snap.name, "A");
    assert_eq!(snap.controls, vec![(String::from("throttle"), 500)]);
    assert_eq!(snap.kin.position, V3 { x: 0, y: 0, z: 0 });
}

#[test]
fn vehicle_step_propagates_position_and_attitude() {
    let mut v = Vehicle::new(
        None,
        Some(V3 { x: 0, y: 0, z: -100_000 }),
        Some(V3 { x: 1_000, y: 2_000, z: -500 }),
        None,
        Some(V3 { x: 0, y: 0, z: 90_000 }),
    );
    let engine = PointMassDynamics {};
    // one second: position moves by the velocity, yaw by the yaw rate
    v.step(&engine, 1_000, &vec![0, 0, 0]);
    assert_eq!(v.kin.position, V3 { x: 1_000, y: 2_000, z: -100_500 });
    assert_eq!(v.kin.velocity, V3 { x: 1_000, y: 2_000, z: -500 });
    assert_eq!(v.kin.attitude.yaw, 90_000);
    // three more seconds of 90 deg/s yaw: 360 total wraps back to 0
    v.step(&engine, 3_000, &vec![0, 0, 0]);
    assert_eq!(v.kin.attitude.yaw, 0);
}

// A supplied attitude is normalized at construction: 350 degrees of pitch
// is the same rotation as -10 degrees, and the stored state says so.
#[test]
fn new_vehicle_normalizes_attitude() {
    let v = Vehicle::new(
        None,
        None,
        None,
        Some(Attitude { roll: 360_000, pitch: 350_000, yaw: -190_000 }),
        None,
    );
    assert_eq!(v.kin.attitude, Attitude { roll: 0, pitch: -10_000, yaw: 170_000 });
}
