//! Fixed-point scene-graph data: 3-component vectors and entity transforms.

use vstd::prelude::*;

verus! {

/// Fixed-point scale of every length in the crate: world lengths are stored
/// in thousandths of a world unit.
pub const MILLIS_PER_UNIT: i64 = 1000;

/// A three-component vector in thousandths of a world unit.
#[derive(Clone, Copy, PartialEq, Eq, Structural, Debug)]
pub struct Vec3Milli {
    pub x: i64,
    pub y: i64,
    pub z: i64,
}

impl Vec3Milli {
    /// The vector with every component equal to `v`.
    pub fn splat(v: i64) -> (r: Vec3Milli)
        ensures
            r.x == v,
            r.y == v,
            r.z == v,
    {
        Vec3Milli { x: v, y: v, z: v }
    }

    /// The origin.
    pub fn zero() -> (r: Vec3Milli)
        ensures
            r.x == 0,
            r.y == 0,
            r.z == 0,
    {
        Vec3Milli { x: 0, y: 0, z: 0 }
    }
}

/// Pose of an entity in the scene: a translation plus a per-axis scale, both
/// in thousandths of a world unit.
#[derive(Clone, Copy, PartialEq, Eq, Structural, Debug)]
pub struct Transform {
    pub translation: Vec3Milli,
    pub scale: Vec3Milli,
}

impl Transform {
    /// A transform at the origin with the given scale.
    pub fn from_scale(scale: Vec3Milli) -> (t: Transform)
        ensures
            t.translation.x == 0,
            t.translation.y == 0,
            t.translation.z == 0,
            t.scale == scale,
    {
        Transform { translation: Vec3Milli::zero(), scale }
    }
}

} // verus!
