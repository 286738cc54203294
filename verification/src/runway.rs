//! Runway geometry: a rotated-rectangle containment test and the landing
//! reference points on the extended centerline.
//!
//! A runway stores its heading twice over: the angle itself, and the cosine
//! and sine of that angle in micro-units.  The trigonometric pair is data,
//! not computation, so the rotation into the runway frame is exact integer
//! algebra: a point `p` is on the runway iff the runway-frame coordinates
//! `((cos, sin) . d, (-sin, cos) . d) / MICRO` of `d = p - center` lie within
//! half the width and half the length.  Scaling both sides by `2 * MICRO`
//! keeps that test free of any rounding.

use vstd::prelude::*;

verus! {

use crate::fixed::{abs_spec, lemma_mul_bound, tdiv, tdiv_spec, MICRO};

/// Largest coordinate or dimension magnitude the geometry accepts,
/// in milli-units (one million world units).
pub const COORD_LIMIT: i64 = 1_000_000_000;

/// Tolerance on `cos^2 + sin^2 - MICRO^2` for a well-formed heading: wide
/// enough for correctly rounded micro-unit trigonometry.
pub const UNIT_TOLERANCE: i64 = 2_000_000;

/// Baseline runway width, 30 units.
pub const DEFAULT_RUNWAY_WIDTH: i64 = 30_000;

/// Baseline runway length, 1000 units.
pub const DEFAULT_RUNWAY_LENGTH: i64 = 1_000_000;

/// A 2D point in milli-units.
#[derive(Clone, Copy, Debug, PartialEq, Eq, Structural)]
pub struct Point2 {
    pub x: i64,
    pub y: i64,
}

/// A heading angle in millidegrees together with its cosine and sine in
/// micro-units.
#[derive(Clone, Copy, Debug, PartialEq, Eq, Structural)]
pub struct Heading {
    pub angle: i64,
    pub cos_micro: i64,
    pub sin_micro: i64,
}

/// A runway: 2D center, width across and length along the heading, and the
/// heading itself.
#[derive(Clone, Copy, Debug, PartialEq, Eq, Structural)]
pub struct Runway {
    pub center: Point2,
    pub width: i64,
    pub length: i64,
    pub heading: Heading,
}

/// The two landing reference points on the runway centerline: the threshold
/// nearest to the approach and the far threshold beyond it.
#[derive(Clone, Copy, Debug, PartialEq, Eq, Structural)]
pub struct TouchdownPoints {
    pub near_threshold: Point2,
    pub far_threshold: Point2,
}

/// Whether a heading's trigonometric pair is bounded and unit-length to
/// within rounding.
pub open spec fn heading_wf(h: Heading) -> bool {
    &&& -MICRO <= h.cos_micro <= MICRO
    &&& -MICRO <= h.sin_micro <= MICRO
    &&& -UNIT_TOLERANCE <= (h.cos_micro as int) * (h.cos_micro as int)
        + (h.sin_micro as int) * (h.sin_micro as int) - (MICRO as int) * (MICRO as int)
        <= UNIT_TOLERANCE
}

/// Whether a runway's fields are within the machine bounds the geometry
/// relies on.
pub open spec fn runway_wf(r: Runway) -> bool {
    &&& -COORD_LIMIT <= r.center.x <= COORD_LIMIT
    &&& -COORD_LIMIT <= r.center.y <= COORD_LIMIT
    &&& 0 <= r.width <= COORD_LIMIT
    &&& 0 <= r.length <= COORD_LIMIT
    &&& heading_wf(r.heading)
}

/// The rotated-rectangle containment test, exactly: twice the runway-frame
/// coordinates of `p - center`, still scaled by `MICRO`, within the width
/// and length also scaled by `MICRO`.
pub open spec fn on_runway_spec(r: Runway, p: Point2) -> bool {
    let dx = p.x - r.center.x;
    let dy = p.y - r.center.y;
    let cos = r.heading.cos_micro as int;
    let sin = r.heading.sin_micro as int;
    let across = cos * dx + sin * dy;
    let along = -sin * dx + cos * dy;
    &&& abs_spec(2 * across) <= r.width * MICRO
    &&& abs_spec(2 * along) <= r.length * MICRO
}

/// The baseline runway: centered at the origin, default width and length,
/// zero heading.
pub open spec fn standard_runway_spec() -> Runway {
    Runway {
        center: Point2 { x: 0, y: 0 },
        width: DEFAULT_RUNWAY_WIDTH,
        length: DEFAULT_RUNWAY_LENGTH,
        heading: Heading { angle: 0, cos_micro: MICRO, sin_micro: 0 },
    }
}

/// The landing reference points of runway `r`: the two ends of the
/// centerline, each a half-length from the center along the heading
/// direction `(-sin, cos)`, with the scale divisions truncating.
pub open spec fn approach_points_spec(r: Runway) -> TouchdownPoints {
    let half_x = tdiv_spec(-(r.heading.sin_micro as int) * r.length, 2 * MICRO);
    let half_y = tdiv_spec((r.heading.cos_micro as int) * r.length, 2 * MICRO);
    TouchdownPoints {
        near_threshold: Point2 { x: (r.center.x - half_x) as i64, y: (r.center.y - half_y) as i64 },
        far_threshold: Point2 { x: (r.center.x + half_x) as i64, y: (r.center.y + half_y) as i64 },
    }
}

impl Heading {
    /// The zero heading: cosine one, sine zero.
    pub fn zero() -> (r: Heading)
        ensures
            r == (Heading { angle: 0, cos_micro: MICRO, sin_micro: 0 }),
            heading_wf(r),
    {
        Heading { angle: 0, cos_micro: MICRO, sin_micro: 0 }
    }
}

impl Runway {
    /// The baseline runway: centered at the origin, default width and
    /// length, zero heading.
    pub fn standard() -> (r: Runway)
        ensures
            r == standard_runway_spec(),
            runway_wf(r),
    {
        Runway {
            center: Point2 { x: 0, y: 0 },
            width: DEFAULT_RUNWAY_WIDTH,
            length: DEFAULT_RUNWAY_LENGTH,
            heading: Heading::zero(),
        }
    }

    /// This runway with only the supplied fields overwritten; omitted fields
    /// keep their current values.
    pub fn with_overrides(
        self,
        position: Option<Point2>,
        width: Option<i64>,
        length: Option<i64>,
        heading: Option<Heading>,
    ) -> (r: Runway)
        requires
            runway_wf(self),
            (match position {
                Some(p) => -COORD_LIMIT <= p.x <= COORD_LIMIT && -COORD_LIMIT <= p.y
                    <= COORD_LIMIT,
                None => true,
            }),
            (match width {
                Some(w) => 0 <= w <= COORD_LIMIT,
                None => true,
            }),
            (match length {
                Some(l) => 0 <= l <= COORD_LIMIT,
                None => true,
            }),
            (match heading {
                Some(h) => heading_wf(h),
                None => true,
            }),
        ensures
            r.center == (match position {
                Some(p) => p,
                None => self.center,
            }),
            r.width == (match width {
                Some(w) => w,
                None => self.width,
            }),
            r.length == (match length {
                Some(l) => l,
                None => self.length,
            }),
            r.heading == (match heading {
                Some(h) => h,
                None => self.heading,
            }),
            runway_wf(r),
    {
        Runway {
            center: match position {
                Some(p) => p,
                None => self.center,
            },
            width: match width {
                Some(w) => w,
                None => self.width,
            },
            length: match length {
                Some(l) => l,
                None => self.length,
            },
            heading: match heading {
                Some(h) => h,
                None => self.heading,
            },
        }
    }

    /// Whether `p` lies on the runway rectangle.
    pub fn on_runway(&self, p: Point2) -> (r: bool)
        requires
            runway_wf(*self),
            -COORD_LIMIT <= p.x <= COORD_LIMIT,
            -COORD_LIMIT <= p.y <= COORD_LIMIT,
        ensures
            r == on_runway_spec(*self, p),
    {
        let dx = p.x - self.center.x;
        let dy = p.y - self.center.y;
        proof {
            lemma_mul_bound(
                self.heading.cos_micro as int,
                dx as int,
                MICRO as int,
                2 * COORD_LIMIT as int,
            );
            lemma_mul_bound(
                self.heading.sin_micro as int,
                dy as int,
                MICRO as int,
                2 * COORD_LIMIT as int,
            );
            lemma_mul_bound(
                self.heading.sin_micro as int,
                dx as int,
                MICRO as int,
                2 * COORD_LIMIT as int,
            );
            lemma_mul_bound(
                -(self.heading.sin_micro as int),
                dx as int,
                MICRO as int,
                2 * COORD_LIMIT as int,
            );
            lemma_mul_bound(
                self.heading.cos_micro as int,
                dy as int,
                MICRO as int,
                2 * COORD_LIMIT as int,
            );
            lemma_mul_bound(self.width as int, MICRO as int, COORD_LIMIT as int, MICRO as int);
            lemma_mul_bound(self.length as int, MICRO as int, COORD_LIMIT as int, MICRO as int);
        }
        let across = self.heading.cos_micro * dx + self.heading.sin_micro * dy;
        let along = (-self.heading.sin_micro) * dx + self.heading.cos_micro * dy;
        let across2 = 2 * across;
        let along2 = 2 * along;
        let across2_abs = if across2 < 0 {
            -across2
        } else {
            across2
        };
        let along2_abs = if along2 < 0 {
            -along2
        } else {
            along2
        };
        across2_abs <= self.width * MICRO && along2_abs <= self.length * MICRO
    }

    /// The landing reference points on the centerline; see
    /// [`approach_points_spec`].
    pub fn approach_points(&self) -> (r: TouchdownPoints)
        requires
            runway_wf(*self),
        ensures
            r == approach_points_spec(*self),
    {
        proof {
            lemma_mul_bound(
                self.heading.sin_micro as int,
                self.length as int,
                MICRO as int,
                COORD_LIMIT as int,
            );
            lemma_mul_bound(
                -(self.heading.sin_micro as int),
                self.length as int,
                MICRO as int,
                COORD_LIMIT as int,
            );
            lemma_mul_bound(
                self.heading.cos_micro as int,
                self.length as int,
                MICRO as int,
                COORD_LIMIT as int,
            );
        }
        let half_x = tdiv((-self.heading.sin_micro) * self.length, 2 * MICRO);
        let half_y = tdiv(self.heading.cos_micro * self.length, 2 * MICRO);
        TouchdownPoints {
            near_threshold: Point2 { x: self.center.x - half_x, y: self.center.y - half_y },
            far_threshold: Point2 { x: self.center.x + half_x, y: self.center.y + half_y },
        }
    }
}

} // verus!
