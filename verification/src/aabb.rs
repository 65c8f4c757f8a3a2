//! Axis-aligned bounding boxes and their penetration depth.

use vstd::prelude::*;
use crate::geometry::Vec2;
use crate::units::within;

verus! {

/// Largest magnitude of a centre coordinate, and largest half-size, for which
/// the box operations are computed without overflow.
pub const EXTENT_LIMIT: i64 = 1_000_000_000_000_000_000;

/// An axis-aligned box given by its centre and its half-size on each axis.
#[derive(Clone, Copy, PartialEq, Eq, Debug, Structural)]
pub struct AABB {
    pub center: Vec2,
    pub half_size: Vec2,
}

/// Signed push along one axis that takes a box centred at `center` out of a
/// box centred at `other_center`: toward the positive side when the first
/// centre lies strictly beyond the second, toward the negative side otherwise
/// (equal centres are pushed toward the negative side).
pub open spec fn axis_depth(center: int, half: int, other_center: int, other_half: int) -> int {
    let distance = center - other_center;
    let reach = half + other_half;
    if distance > 0 {
        reach - distance
    } else {
        -reach - distance
    }
}

impl AABB {
    /// The half-sizes are not negative.
    pub open spec fn wf(self) -> bool {
        self.half_size.x >= 0 && self.half_size.y >= 0
    }

    /// Well-formed, and small enough for overflow-free arithmetic.
    pub open spec fn in_bounds(self) -> bool {
        &&& within(self.center.x as int, EXTENT_LIMIT as int)
        &&& within(self.center.y as int, EXTENT_LIMIT as int)
        &&& 0 <= self.half_size.x <= EXTENT_LIMIT
        &&& 0 <= self.half_size.y <= EXTENT_LIMIT
    }

    pub open spec fn spec_left(self) -> int {
        self.center.x - self.half_size.x
    }

    pub open spec fn spec_right(self) -> int {
        self.center.x + self.half_size.x
    }

    pub open spec fn spec_top(self) -> int {
        self.center.y + self.half_size.y
    }

    pub open spec fn spec_bottom(self) -> int {
        self.center.y - self.half_size.y
    }

    /// The interiors of the two boxes share a point: their projections
    /// overlap on both axes at once. Boxes that only touch do not overlap.
    pub open spec fn overlaps(self, other: AABB) -> bool {
        &&& self.spec_left() < other.spec_right()
        &&& other.spec_left() < self.spec_right()
        &&& self.spec_bottom() < other.spec_top()
        &&& other.spec_bottom() < self.spec_top()
    }

    /// Per axis, the signed push of least magnitude that separates `self`
    /// from `other` along that axis; zero on both axes unless the boxes
    /// overlap.
    pub open spec fn intersection_depth(self, other: AABB) -> (int, int) {
        if self.overlaps(other) {
            (
                axis_depth(
                    self.center.x as int,
                    self.half_size.x as int,
                    other.center.x as int,
                    other.half_size.x as int,
                ),
                axis_depth(
                    self.center.y as int,
                    self.half_size.y as int,
                    other.center.y as int,
                    other.half_size.y as int,
                ),
            )
        } else {
            (0, 0)
        }
    }

    /// The same box moved to another centre.
    pub open spec fn moved_to(self, center: Vec2) -> AABB {
        AABB { center, half_size: self.half_size }
    }

    /// Builds a box from its centre and half-size.
    pub fn new(center: Vec2, half_size: Vec2) -> (b: AABB)
        requires
            half_size.x >= 0,
            half_size.y >= 0,
        ensures
            b == (AABB { center, half_size }),
            b.wf(),
    {
        AABB { center, half_size }
    }

    /// Tests `in_bounds`.
    pub fn check_in_bounds(&self) -> (r: bool)
        ensures
            r == self.in_bounds(),
    {
        -EXTENT_LIMIT <= self.center.x && self.center.x <= EXTENT_LIMIT && -EXTENT_LIMIT
            <= self.center.y && self.center.y <= EXTENT_LIMIT && 0 <= self.half_size.x
            && self.half_size.x <= EXTENT_LIMIT && 0 <= self.half_size.y && self.half_size.y
            <= EXTENT_LIMIT
    }

    /// Left edge.
    pub fn left(&self) -> (e: i64)
        requires
            self.in_bounds(),
        ensures
            e == self.spec_left(),
    {
        self.center.x - self.half_size.x
    }

    /// Right edge.
    pub fn right(&self) -> (e: i64)
        requires
            self.in_bounds(),
        ensures
            e == self.spec_right(),
    {
        self.center.x + self.half_size.x
    }

    /// Top edge.
    pub fn top(&self) -> (e: i64)
        requires
            self.in_bounds(),
        ensures
            e == self.spec_top(),
    {
        self.center.y + self.half_size.y
    }

    /// Bottom edge.
    pub fn bottom(&self) -> (e: i64)
        requires
            self.in_bounds(),
        ensures
            e == self.spec_bottom(),
    {
        self.center.y - self.half_size.y
    }

    /// Tests `overlaps`.
    pub fn intersects(&self, other: &AABB) -> (r: bool)
        requires
            self.in_bounds(),
            other.in_bounds(),
        ensures
            r == self.overlaps(*other),
    {
        self.left() < other.right() && other.left() < self.right() && self.bottom() < other.top()
            && other.bottom() < self.top()
    }

    /// Computes `intersection_depth`. Boxes whose projections are disjoint on
    /// either axis get the zero vector; overlapping boxes get a depth that is
    /// non-zero on both axes.
    pub fn get_intersection_depth(&self, other: &AABB) -> (depth: Vec2)
        requires
            self.in_bounds(),
            other.in_bounds(),
        ensures
            (depth.x as int, depth.y as int) == self.intersection_depth(*other),
            !self.overlaps(*other) ==> depth == Vec2::zero(),
            self.overlaps(*other) ==> depth.x != 0 && depth.y != 0,
    {
        if !self.intersects(other) {
            return Vec2 { x: 0, y: 0 };
        }
        let distance_x: i64 = self.center.x - other.center.x;
        let distance_y: i64 = self.center.y - other.center.y;
        let reach_x: i64 = self.half_size.x + other.half_size.x;
        let reach_y: i64 = self.half_size.y + other.half_size.y;
        let depth_x: i64 = if distance_x > 0 {
            reach_x - distance_x
        } else {
            -reach_x - distance_x
        };
        let depth_y: i64 = if distance_y > 0 {
            reach_y - distance_y
        } else {
            -reach_y - distance_y
        };
        Vec2 { x: depth_x, y: depth_y }
    }
}

/// Boxes whose projections are disjoint on either axis have no depth on any
/// axis. Projections that only touch are disjoint.
pub proof fn lemma_disjoint_projections_have_no_depth(a: AABB, b: AABB)
    requires
        a.spec_right() <= b.spec_left() || b.spec_right() <= a.spec_left() || a.spec_top()
            <= b.spec_bottom() || b.spec_top() <= a.spec_bottom(),
    ensures
        a.intersection_depth(b) == (0int, 0int),
        b.intersection_depth(a) == (0int, 0int),
{
}

/// Well-formed boxes overlap exactly when, on both axes, their centres are
/// closer than the sum of their half-sizes; the depth of overlapping boxes is
/// non-zero on both axes.
pub proof fn lemma_overlap_by_distance(a: AABB, b: AABB)
    requires
        a.wf(),
        b.wf(),
    ensures
        a.overlaps(b) == (crate::units::magnitude(a.center.x - b.center.x) < a.half_size.x
            + b.half_size.x && crate::units::magnitude(a.center.y - b.center.y) < a.half_size.y
            + b.half_size.y),
        a.overlaps(b) == b.overlaps(a),
        a.overlaps(b) ==> a.intersection_depth(b).0 != 0 && a.intersection_depth(b).1 != 0,
{
}

/// Of the two pushes that separate two overlapping boxes along an axis, one
/// toward each side, `axis_depth` is the one of least magnitude, and after it
/// the boxes touch on that axis.
pub proof fn lemma_axis_depth_is_least(center: int, half: int, other_center: int, other_half: int)
    requires
        half >= 0,
        other_half >= 0,
        crate::units::magnitude(center - other_center) < half + other_half,
    ensures
        ({
            let d = axis_depth(center, half, other_center, other_half);
            let toward_positive = (other_center + other_half) - (center - half);
            let toward_negative = (other_center - other_half) - (center + half);
            &&& d == toward_positive || d == toward_negative
            &&& crate::units::magnitude(d) <= crate::units::magnitude(toward_positive)
            &&& crate::units::magnitude(d) <= crate::units::magnitude(toward_negative)
            &&& d != 0
            &&& crate::units::magnitude((center + d) - other_center) == half + other_half
        }),
{
}

} // verus!
