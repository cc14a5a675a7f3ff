use vstd::prelude::*;

verus! {

/// Millimetres in one world unit: positions are fixed-point integers.
pub const MM_PER_UNIT: i64 = 1000;

/// The scale of a direction: a unit vector has components in thousandths.
pub const DIRECTION_SCALE: i64 = 1000;

/// The largest coordinate, in millimetres, that the arithmetic here accepts.
pub const WORLD_EXTENT: i64 = 1099511627776;

/// A point or offset in the world, in millimetres.
#[derive(Clone, Copy, PartialEq, Eq, Structural, Debug)]
pub struct Vec3 {
    pub x: i64,
    pub y: i64,
    pub z: i64,
}

pub open spec fn in_world(v: Vec3) -> bool {
    &&& -WORLD_EXTENT <= v.x <= WORLD_EXTENT
    &&& -WORLD_EXTENT <= v.y <= WORLD_EXTENT
    &&& -WORLD_EXTENT <= v.z <= WORLD_EXTENT
}

/// A direction whose components lie within one unit, in thousandths.
pub open spec fn is_direction(d: Vec3) -> bool {
    &&& -DIRECTION_SCALE <= d.x <= DIRECTION_SCALE
    &&& -DIRECTION_SCALE <= d.y <= DIRECTION_SCALE
    &&& -DIRECTION_SCALE <= d.z <= DIRECTION_SCALE
}

pub open spec fn distance_squared(a: Vec3, b: Vec3) -> int {
    (a.x - b.x) * (a.x - b.x) + (a.y - b.y) * (a.y - b.y) + (a.z - b.z) * (a.z - b.z)
}

impl Vec3 {
    pub fn new(x: i64, y: i64, z: i64) -> (r: Vec3)
        ensures
            r == (Vec3 { x, y, z }),
    {
        Vec3 { x, y, z }
    }

    pub fn zero() -> (r: Vec3)
        ensures
            r == (Vec3 { x: 0, y: 0, z: 0 }),
    {
        Vec3 { x: 0, y: 0, z: 0 }
    }

    /// The point `self + d * units`, for a direction `d` and a whole number of
    /// world units.
    pub fn advanced(&self, d: Vec3, units: i64) -> (r: Vec3)
        requires
            in_world(*self),
            is_direction(d),
            0 <= units <= 1000000,
        ensures
            r.x == self.x + d.x * units,
            r.y == self.y + d.y * units,
            r.z == self.z + d.z * units,
    {
        assert(-1000000000 <= d.x * units <= 1000000000) by (nonlinear_arith)
            requires -1000 <= d.x <= 1000, 0 <= units <= 1000000;
        assert(-1000000000 <= d.y * units <= 1000000000) by (nonlinear_arith)
            requires -1000 <= d.y <= 1000, 0 <= units <= 1000000;
        assert(-1000000000 <= d.z * units <= 1000000000) by (nonlinear_arith)
            requires -1000 <= d.z <= 1000, 0 <= units <= 1000000;
        Vec3 { x: self.x + d.x * units, y: self.y + d.y * units, z: self.z + d.z * units }
    }

    /// Whether `other` lies strictly closer than `radius` millimetres.
    pub fn is_within(&self, other: &Vec3, radius: i64) -> (r: bool)
        requires
            in_world(*self),
            in_world(*other),
            0 <= radius <= WORLD_EXTENT,
        ensures
            r == (distance_squared(*self, *other) < radius * radius),
    {
        let dx = self.x as i128 - other.x as i128;
        let dy = self.y as i128 - other.y as i128;
        let dz = self.z as i128 - other.z as i128;
        assert(dx * dx <= 4 * WORLD_EXTENT * WORLD_EXTENT) by (nonlinear_arith)
            requires -2 * WORLD_EXTENT <= dx <= 2 * WORLD_EXTENT;
        assert(dy * dy <= 4 * WORLD_EXTENT * WORLD_EXTENT) by (nonlinear_arith)
            requires -2 * WORLD_EXTENT <= dy <= 2 * WORLD_EXTENT;
        assert(dz * dz <= 4 * WORLD_EXTENT * WORLD_EXTENT) by (nonlinear_arith)
            requires -2 * WORLD_EXTENT <= dz <= 2 * WORLD_EXTENT;
        assert(0 <= dx * dx && 0 <= dy * dy && 0 <= dz * dz) by (nonlinear_arith);
        assert(radius * radius <= WORLD_EXTENT * WORLD_EXTENT) by (nonlinear_arith)
            requires 0 <= radius <= WORLD_EXTENT;
        let rr = radius as i128;
        dx * dx + dy * dy + dz * dz < rr * rr
    }
}

} // verus!
