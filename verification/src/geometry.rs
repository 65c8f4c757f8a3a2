//! Integer vectors and the placement of a body in the world.

use vstd::prelude::*;
use crate::aabb::AABB;
use crate::units::{within, COORD_LIMIT};

verus! {

/// Half-extent, in sub-units, of a body whose scale is one `UNIT` thousandth.
/// A body of scale `s` (in thousandths) reaches `s * 16` sub-units from its
/// centre on that axis.
pub const HALF_EXTENT_PER_SCALE: i64 = 16;

/// Largest scale, in thousandths, that a placement may carry.
pub const SCALE_LIMIT: i64 = 1_000_000_000;

/// Largest magnitude of a planar coordinate at which a body still has a
/// collision box that terrain and bullets are tested against.
pub const BOX_LIMIT: i64 = 500_000_000_000_000_000;

/// A point or a displacement in the plane.
#[derive(Clone, Copy, PartialEq, Eq, Debug, Structural)]
pub struct Vec2 {
    pub x: i64,
    pub y: i64,
}

/// A point in the plane together with its drawing depth `z`.
#[derive(Clone, Copy, PartialEq, Eq, Debug, Structural)]
pub struct Vec3 {
    pub x: i64,
    pub y: i64,
    pub z: i64,
}

impl Vec2 {
    /// The zero vector.
    pub open spec fn zero() -> Vec2 {
        Vec2 { x: 0, y: 0 }
    }

    /// Builds a vector from its components.
    pub fn new(x: i64, y: i64) -> (v: Vec2)
        ensures
            v == (Vec2 { x, y }),
    {
        Vec2 { x, y }
    }

    /// Adds a drawing depth.
    pub fn extend(self, z: i64) -> (v: Vec3)
        ensures
            v == (Vec3 { x: self.x, y: self.y, z }),
    {
        Vec3 { x: self.x, y: self.y, z }
    }

    /// Whether both components are zero.
    pub fn is_zero(self) -> (r: bool)
        ensures
            r == (self == Vec2::zero()),
    {
        self.x == 0 && self.y == 0
    }
}

impl Vec3 {
    /// Builds a vector from its components.
    pub fn new(x: i64, y: i64, z: i64) -> (v: Vec3)
        ensures
            v == (Vec3 { x, y, z }),
    {
        Vec3 { x, y, z }
    }

    /// The planar part of the vector.
    pub open spec fn plane(self) -> Vec2 {
        Vec2 { x: self.x, y: self.y }
    }

    /// Drops the drawing depth.
    pub fn xy(self) -> (v: Vec2)
        ensures
            v == self.plane(),
    {
        Vec2 { x: self.x, y: self.y }
    }

    /// Whether every component lies within `COORD_LIMIT` of the origin.
    pub open spec fn in_bounds(self) -> bool {
        &&& within(self.x as int, COORD_LIMIT as int)
        &&& within(self.y as int, COORD_LIMIT as int)
        &&& within(self.z as int, COORD_LIMIT as int)
    }

    /// Tests `in_bounds`.
    pub fn check_in_bounds(self) -> (r: bool)
        ensures
            r == self.in_bounds(),
    {
        -COORD_LIMIT <= self.x && self.x <= COORD_LIMIT && -COORD_LIMIT <= self.y && self.y
            <= COORD_LIMIT && -COORD_LIMIT <= self.z && self.z <= COORD_LIMIT
    }

    /// Whether the planar components lie within `COORD_LIMIT` of the origin;
    /// the drawing depth may be anything.
    pub open spec fn plane_in_bounds(self) -> bool {
        &&& within(self.x as int, COORD_LIMIT as int)
        &&& within(self.y as int, COORD_LIMIT as int)
    }

    /// Tests `plane_in_bounds`.
    pub fn check_plane_in_bounds(self) -> (r: bool)
        ensures
            r == self.plane_in_bounds(),
    {
        -COORD_LIMIT <= self.x && self.x <= COORD_LIMIT && -COORD_LIMIT <= self.y && self.y
            <= COORD_LIMIT
    }

    /// Square of the distance between two points in the plane. The drawing
    /// depth does not count.
    pub open spec fn planar_distance_squared(self, other: Vec3) -> int {
        (self.x - other.x) * (self.x - other.x) + (self.y - other.y) * (self.y - other.y)
    }

    /// Whether `other` lies strictly closer than `radius` in the plane,
    /// whatever the drawing depths are. A radius of zero or less admits
    /// nothing.
    pub open spec fn planar_closer_than(self, other: Vec3, radius: int) -> bool {
        radius > 0 && self.planar_distance_squared(other) < radius * radius
    }

    /// Tests `planar_closer_than`.
    pub fn is_planar_closer_than(self, other: Vec3, radius: i64) -> (r: bool)
        requires
            self.plane_in_bounds(),
            other.plane_in_bounds(),
            within(radius as int, COORD_LIMIT as int),
        ensures
            r == self.planar_closer_than(other, radius as int),
    {
        if radius <= 0 {
            return false;
        }
        let dx: i128 = self.x as i128 - other.x as i128;
        let dy: i128 = self.y as i128 - other.y as i128;
        let reach: i128 = radius as i128;
        assert(0 <= dx * dx <= 4_000_000_000_000_000_000_000_000) by (nonlinear_arith)
            requires
                -2_000_000_000_000 <= dx <= 2_000_000_000_000,
        ;
        assert(0 <= dy * dy <= 4_000_000_000_000_000_000_000_000) by (nonlinear_arith)
            requires
                -2_000_000_000_000 <= dy <= 2_000_000_000_000,
        ;
        assert(0 <= reach * reach <= 1_000_000_000_000_000_000_000_000) by (nonlinear_arith)
            requires
                0 <= reach <= 1_000_000_000_000,
        ;
        dx * dx + dy * dy < reach * reach
    }

    /// Square of the Euclidean distance between two points, depth included.
    pub open spec fn distance_squared(self, other: Vec3) -> int {
        (self.x - other.x) * (self.x - other.x) + (self.y - other.y) * (self.y - other.y) + (
        self.z - other.z) * (self.z - other.z)
    }

    /// Whether `other` lies strictly closer than `radius`, measured in all
    /// three components. A radius of zero or less admits nothing.
    pub open spec fn closer_than(self, other: Vec3, radius: int) -> bool {
        radius > 0 && self.distance_squared(other) < radius * radius
    }

    /// Tests `closer_than`.
    pub fn is_closer_than(self, other: Vec3, radius: i64) -> (r: bool)
        requires
            self.in_bounds(),
            other.in_bounds(),
            within(radius as int, COORD_LIMIT as int),
        ensures
            r == self.closer_than(other, radius as int),
    {
        if radius <= 0 {
            return false;
        }
        let dx: i128 = self.x as i128 - other.x as i128;
        let dy: i128 = self.y as i128 - other.y as i128;
        let dz: i128 = self.z as i128 - other.z as i128;
        let reach: i128 = radius as i128;
        assert(0 <= dx * dx <= 4_000_000_000_000_000_000_000_000) by (nonlinear_arith)
            requires
                -2_000_000_000_000 <= dx <= 2_000_000_000_000,
        ;
        assert(0 <= dy * dy <= 4_000_000_000_000_000_000_000_000) by (nonlinear_arith)
            requires
                -2_000_000_000_000 <= dy <= 2_000_000_000_000,
        ;
        assert(0 <= dz * dz <= 4_000_000_000_000_000_000_000_000) by (nonlinear_arith)
            requires
                -2_000_000_000_000 <= dz <= 2_000_000_000_000,
        ;
        assert(0 <= reach * reach <= 1_000_000_000_000_000_000_000_000) by (nonlinear_arith)
            requires
                0 <= reach <= 1_000_000_000_000,
        ;
        dx * dx + dy * dy + dz * dz < reach * reach
    }
}

/// Where a body stands and how large it is drawn.
#[derive(Clone, Copy, PartialEq, Eq, Debug, Structural)]
pub struct Placement {
    /// Position of the centre; `z` orders drawing only.
    pub translation: Vec3,
    /// Scale on each planar axis, in thousandths.
    pub scale: Vec2,
}

impl Placement {
    /// Whether the position is within `COORD_LIMIT` and the scale is between
    /// zero and `SCALE_LIMIT`.
    pub open spec fn in_bounds(self) -> bool {
        &&& self.translation.in_bounds()
        &&& 0 <= self.scale.x <= SCALE_LIMIT
        &&& 0 <= self.scale.y <= SCALE_LIMIT
    }

    /// Tests `in_bounds`.
    pub fn check_in_bounds(self) -> (r: bool)
        ensures
            r == self.in_bounds(),
    {
        self.translation.check_in_bounds() && 0 <= self.scale.x && self.scale.x <= SCALE_LIMIT
            && 0 <= self.scale.y && self.scale.y <= SCALE_LIMIT
    }

    /// Half-size of the collision box that the scale stands for.
    pub open spec fn half_extent(self) -> Vec2 {
        Vec2 {
            x: (self.scale.x * HALF_EXTENT_PER_SCALE) as i64,
            y: (self.scale.y * HALF_EXTENT_PER_SCALE) as i64,
        }
    }

    /// Whether the collision box can be computed: the planar position is
    /// within `BOX_LIMIT` and the scale is between zero and `SCALE_LIMIT`.
    /// Every placement that is `in_bounds` is.
    pub open spec fn boxable(self) -> bool {
        &&& within(self.translation.x as int, BOX_LIMIT as int)
        &&& within(self.translation.y as int, BOX_LIMIT as int)
        &&& 0 <= self.scale.x <= SCALE_LIMIT
        &&& 0 <= self.scale.y <= SCALE_LIMIT
    }

    /// Tests `boxable`.
    pub fn check_boxable(self) -> (r: bool)
        ensures
            r == self.boxable(),
    {
        -BOX_LIMIT <= self.translation.x && self.translation.x <= BOX_LIMIT && -BOX_LIMIT
            <= self.translation.y && self.translation.y <= BOX_LIMIT && 0 <= self.scale.x
            && self.scale.x <= SCALE_LIMIT && 0 <= self.scale.y && self.scale.y <= SCALE_LIMIT
    }

    /// The collision box of the body: centred on its position, with the
    /// half-size that its scale stands for.
    pub open spec fn collider(self) -> AABB {
        AABB { center: self.translation.plane(), half_size: self.half_extent() }
    }

    /// Computes `collider`.
    pub fn aabb(self) -> (b: AABB)
        requires
            self.boxable(),
        ensures
            b == self.collider(),
            b.in_bounds(),
    {
        AABB::new(self.translation.xy(), self.half_size())
    }

    /// Builds a placement.
    pub fn new(translation: Vec3, scale: Vec2) -> (p: Placement)
        ensures
            p == (Placement { translation, scale }),
    {
        Placement { translation, scale }
    }

    /// Computes `half_extent`.
    pub fn half_size(self) -> (h: Vec2)
        requires
            0 <= self.scale.x <= SCALE_LIMIT,
            0 <= self.scale.y <= SCALE_LIMIT,
        ensures
            h == self.half_extent(),
            h.x == self.scale.x * HALF_EXTENT_PER_SCALE,
            h.y == self.scale.y * HALF_EXTENT_PER_SCALE,
    {
        Vec2 { x: self.scale.x * HALF_EXTENT_PER_SCALE, y: self.scale.y * HALF_EXTENT_PER_SCALE }
    }
}

} // verus!
