use flyer_core::fixed::MICRO;
use flyer_core::runway::{
    Heading, Point2, Runway, DEFAULT_RUNWAY_LENGTH, DEFAULT_RUNWAY_WIDTH,
};

// Runway center (0,0), width 30, length 60, heading 0: the four reference
// containment cases.
#[test]
fn containment_axis_aligned() {
    let runway = Runway::standard().with_overrides(
        Some(Point2 { x: 0, y: 0 }),
        Some(30_000),
        Some(60_000),
        Some(Heading::zero()),
    );
    assert!(runway.on_runway(Point2 { x: 0, y: 0 }));
    assert!(!runway.on_runway(Point2 { x: 0, y: 40_000 }));
    assert!(runway.on_runway(Point2 { x: 10_000, y: 0 }));
    assert!(!runway.on_runway(Point2 { x: 20_000, y: 0 }));
}

#[test]
fn containment_boundary_is_inclusive() {
    let runway = Runway::standard().with_overrides(
        None,
        Some(30_000),
        Some(60_000),
        None,
    );
    // exactly half the width / half the length from the center
    assert!(runway.on_runway(Point2 { x: 15_000, y: 0 }));
    assert!(runway.on_runway(Point2 { x: -15_000, y: 0 }));
    assert!(runway.on_runway(Point2 { x: 0, y: 30_000 }));
    assert!(!runway.on_runway(Point2 { x: 15_001, y: 0 }));
    assert!(!runway.on_runway(Point2 { x: 0, y: 30_001 }));
}

// A runway rotated a quarter turn: width now spans y, length spans x.
#[test]
fn containment_rotated_quarter_turn() {
    let quarter = Heading { angle: 90_000, cos_micro: 0, sin_micro: MICRO };
    let runway = Runway::standard().with_overrides(
        Some(Point2 { x: 0, y: 0 }),
        Some(30_000),
        Some(60_000),
        Some(quarter),
    );
    assert!(runway.on_runway(Point2 { x: 0, y: 10_000 }));
    assert!(!runway.on_runway(Point2 { x: 0, y: 20_000 }));
    assert!(runway.on_runway(Point2 { x: 25_000, y: 0 }));
    assert!(!runway.on_runway(Point2 { x: 40_000, y: 0 }));
}

// A runway offset from the origin contains its own center.
#[test]
fn containment_offset_center() {
    let runway = Runway::standard().with_overrides(
        Some(Point2 { x: 100_000, y: -50_000 }),
        Some(30_000),
        Some(60_000),
        None,
    );
    assert!(runway.on_runway(Point2 { x: 100_000, y: -50_000 }));
    assert!(!runway.on_runway(Point2 { x: 0, y: 0 }));
}

#[test]
fn standard_runway_defaults() {
    let runway = Runway::standard();
    assert_eq!(runway.center, Point2 { x: 0, y: 0 });
    assert_eq!(runway.width, DEFAULT_RUNWAY_WIDTH);
    assert_eq!(runway.length, DEFAULT_RUNWAY_LENGTH);
    assert_eq!(runway.heading.angle, 0);
    assert_eq!(runway.heading.cos_micro, MICRO);
    assert_eq!(runway.heading.sin_micro, 0);
}

// Overrides touch only the supplied fields.
#[test]
fn overrides_are_independent() {
    let first = Runway::standard().with_overrides(None, Some(42_000), None, None);
    assert_eq!(first.width, 42_000);
    assert_eq!(first.length, DEFAULT_RUNWAY_LENGTH);
    let second = first.with_overrides(None, None, Some(77_000), None);
    // the width set by the first call survives the second, partial call
    assert_eq!(second.width, 42_000);
    assert_eq!(second.length, 77_000);
}

// Heading 0: the centerline runs along +y, so the thresholds sit a
// half-length above and below the center.
#[test]
fn approach_points_axis_aligned() {
    let runway = Runway::standard().with_overrides(
        Some(Point2 { x: 1_000, y: 2_000 }),
        Some(30_000),
        Some(60_000),
        Some(Heading::zero()),
    );
    let points = runway.approach_points();
    assert_eq!(points.far_threshold, Point2 { x: 1_000, y: 32_000 });
    assert_eq!(points.near_threshold, Point2 { x: 1_000, y: -28_000 });
}

// A quarter turn swings the centerline onto the -x axis.
#[test]
fn approach_points_rotated_quarter_turn() {
    let quarter = Heading { angle: 90_000, cos_micro: 0, sin_micro: MICRO };
    let runway = Runway::standard().with_overrides(
        Some(Point2 { x: 0, y: 0 }),
        Some(30_000),
        Some(60_000),
        Some(quarter),
    );
    let points = runway.approach_points();
    assert_eq!(points.far_threshold, Point2 { x: -30_000, y: 0 });
    assert_eq!(points.near_threshold, Point2 { x: 30_000, y: 0 });
}
