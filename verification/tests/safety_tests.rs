use flyer_core::safety::SafetyLimits;
use flyer_core::vehicle::Vehicle;
use flyer_core::vehicle::{Attitude, Kinematics, V3};

fn kin(z: i64, vel: V3, pitch: i64) -> Kinematics {
    Kinematics {
        position: V3 { x: 0, y: 0, z },
        velocity: vel,
        attitude: Attitude { roll: 0, pitch, yaw: 0 },
        rates: V3 { x: 0, y: 0, z: 0 },
    }
}

// Airborne at z=-100 with forward velocity 250: over the 200 speed limit.
#[test]
fn airborne_overspeed_is_crashed() {
    let limits = SafetyLimits::standard();
    let k = kin(-100_000, V3 { x: 250_000, y: 0, z: 0 }, 0);
    assert!(limits.is_crashed(&k));
}

// Same position, velocity 50 and pitch 10 degrees: inside the envelope.
#[test]
fn airborne_nominal_is_not_crashed() {
    let limits = SafetyLimits::standard();
    let k = kin(-100_000, V3 { x: 50_000, y: 0, z: 0 }, 10_000);
    assert!(!limits.is_crashed(&k));
}

// On the ground (z=0) at velocity 300: the ground exemption overrides all
// other checks.
#[test]
fn ground_exemption_overrides_overspeed() {
    let limits = SafetyLimits::standard();
    let k = kin(0, V3 { x: 300_000, y: 0, z: 0 }, 0);
    assert!(!limits.is_crashed(&k));
}

#[test]
fn vertical_velocity_limit() {
    let limits = SafetyLimits::standard();
    let over = kin(-100_000, V3 { x: 0, y: 0, z: 60_001 }, 0);
    assert!(limits.is_crashed(&over));
    let at = kin(-100_000, V3 { x: 0, y: 0, z: 60_000 }, 0);
    assert!(!limits.is_crashed(&at));
}

#[test]
fn pitch_band_limits() {
    let limits = SafetyLimits::standard();
    // below -5 degrees
    assert!(limits.is_crashed(&kin(-100_000, V3 { x: 0, y: 0, z: 0 }, -5_001)));
    // exactly -5 degrees is allowed
    assert!(!limits.is_crashed(&kin(-100_000, V3 { x: 0, y: 0, z: 0 }, -5_000)));
    // above 30 degrees
    assert!(limits.is_crashed(&kin(-100_000, V3 { x: 0, y: 0, z: 0 }, 30_001)));
    // exactly 30 degrees is allowed
    assert!(!limits.is_crashed(&kin(-100_000, V3 { x: 0, y: 0, z: 0 }, 30_000)));
}

#[test]
fn forward_velocity_boundary() {
    let limits = SafetyLimits::standard();
    let at = kin(-100_000, V3 { x: 200_000, y: 0, z: 0 }, 0);
    assert!(!limits.is_crashed(&at));
    let over = kin(-100_000, V3 { x: 200_001, y: 0, z: 0 }, 0);
    assert!(limits.is_crashed(&over));
}

// The exemption boundary itself: z just above -5 is exempt, z at or below
// -5 (airborne) is checked.
#[test]
fn ground_exemption_boundary() {
    let limits = SafetyLimits::standard();
    let exempt = kin(-4_999, V3 { x: 300_000, y: 0, z: 0 }, 0);
    assert!(!limits.is_crashed(&exempt));
    let airborne = kin(-5_000, V3 { x: 300_000, y: 0, z: 0 }, 0);
    assert!(limits.is_crashed(&airborne));
}

#[test]
fn overridden_limits_are_used() {
    let mut limits = SafetyLimits::standard();
    limits.max_forward_velocity = 100_000;
    let k = kin(-100_000, V3 { x: 150_000, y: 0, z: 0 }, 0);
    assert!(limits.is_crashed(&k));
    assert!(!SafetyLimits::standard().is_crashed(&k));
}

// A vehicle constructed at pitch 357 degrees carries the equivalent -3
// degrees, inside the pitch band: the envelope judges the rotation, not
// the raw angle.
#[test]
fn crash_check_sees_normalized_pitch() {
    let limits = SafetyLimits::standard();
    let v = Vehicle::new(
        None,
        Some(V3 { x: 0, y: 0, z: -100_000 }),
        Some(V3 { x: 50_000, y: 0, z: 0 }),
        Some(Attitude { roll: 0, pitch: 357_000, yaw: 0 }),
        None,
    );
    assert_eq!(v.kin.attitude.pitch, -3_000);
    assert!(!limits.is_crashed(&v.kin));
    // 350 degrees is -10 degrees, below the -5 degree floor
    let w = Vehicle::new(
        None,
        Some(V3 { x: 0, y: 0, z: -100_000 }),
        Some(V3 { x: 50_000, y: 0, z: 0 }),
        Some(Attitude { roll: 0, pitch: 350_000, yaw: 0 }),
        None,
    );
    assert_eq!(w.kin.attitude.pitch, -10_000);
    assert!(limits.is_crashed(&w.kin));
}
