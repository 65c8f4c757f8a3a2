//! Static terrain.

use vstd::prelude::*;
use crate::aabb::AABB;
use crate::geometry::{Placement, Vec2, Vec3};
use crate::units::{within, COORD_LIMIT};

verus! {

/// Width of a grid cell, in sub-units per thousandth of a cell.
pub const CELL: i64 = 64;

/// Half the width of a grid cell, in sub-units per thousandth of a cell.
pub const HALF_CELL: i64 = 32;

/// Scale at which terrain is drawn, in thousandths.
pub const PLATFORM_SCALE: i64 = 2_000;

/// Drawing depth of terrain.
pub const PLATFORM_DEPTH: i64 = 1_000;

/// Marker of static terrain.
#[derive(Clone, Copy, PartialEq, Eq, Debug, Structural)]
pub struct Platform;

/// Marker of terrain that shows the tier of the curse.
#[derive(Clone, Copy, PartialEq, Eq, Debug, Structural)]
pub struct Grass;

/// A platform: its collision box, and where and how large it is drawn.
#[derive(Clone, Copy, PartialEq, Eq, Debug, Structural)]
pub struct PlatformEntity {
    pub platform: Platform,
    pub grass: Grass,
    pub aabb: AABB,
    pub placement: Placement,
    /// Size of the sprite, before scaling.
    pub sprite_size: Vec2,
}

/// The platform laid out at `location` with the half-extent `size`, both in
/// thousandths of a grid cell: a cell is `CELL` world sub-units wide, and
/// the box reaches `HALF_CELL` sub-units per thousandth of size.
pub open spec fn laid_out(location: Vec2, size: Vec2) -> PlatformEntity {
    let center = Vec2 { x: (location.x * CELL) as i64, y: (location.y * CELL) as i64 };
    let half_size = Vec2 { x: (size.x * HALF_CELL) as i64, y: (size.y * HALF_CELL) as i64 };
    PlatformEntity {
        platform: Platform,
        grass: Grass,
        aabb: AABB { center, half_size },
        placement: Placement {
            translation: Vec3 { x: center.x, y: center.y, z: PLATFORM_DEPTH },
            scale: Vec2 { x: PLATFORM_SCALE, y: PLATFORM_SCALE },
        },
        sprite_size: half_size,
    }
}

/// Lays a platform out on the grid; see `laid_out`.
pub fn platform(location: Vec2, size: Vec2) -> (p: PlatformEntity)
    requires
        within(location.x as int, COORD_LIMIT as int),
        within(location.y as int, COORD_LIMIT as int),
        0 <= size.x <= COORD_LIMIT,
        0 <= size.y <= COORD_LIMIT,
    ensures
        p == laid_out(location, size),
        p.aabb.in_bounds(),
        p.aabb.center.x == location.x * CELL,
        p.aabb.center.y == location.y * CELL,
        p.aabb.half_size.x == size.x * HALF_CELL,
        p.aabb.half_size.y == size.y * HALF_CELL,
{
    let real_location = Vec2::new(location.x * CELL, location.y * CELL);
    let real_size = Vec2::new(size.x * HALF_CELL, size.y * HALF_CELL);
    PlatformEntity {
        platform: Platform,
        grass: Grass,
        aabb: AABB::new(real_location, real_size),
        placement: Placement::new(
            real_location.extend(PLATFORM_DEPTH),
            Vec2::new(PLATFORM_SCALE, PLATFORM_SCALE),
        ),
        sprite_size: real_size,
    }
}

} // verus!
