//! Per-vertex and per-instance records.
//!
//! `Vertex` is one corner of the geometry template; `Instance` is one
//! drawable copy of the template with its own position and color.
//! `InstanceRaw` is the flat mirror of `Instance` that is uploaded to the
//! GPU; on the device each of its six fields occupies one 32-bit float, so
//! one raw instance covers `INSTANCE_RAW_BYTES` bytes there.

use vstd::prelude::*;

verus! {

use crate::fp::FP_ONE;

/// Bytes one `InstanceRaw` occupies in the GPU-side instance buffer:
/// six 32-bit floats.
pub const INSTANCE_RAW_BYTES: u64 = 24;

/// Bytes one `Vertex` occupies in the GPU-side vertex buffer:
/// five 32-bit floats.
pub const VERTEX_BYTES: u64 = 20;

/// Bytes one index occupies in the GPU-side index buffer: one 16-bit
/// unsigned integer.
pub const INDEX_BYTES: u64 = 2;

/// A three-component fixed-point vector (millionths per component).
#[derive(Clone, Copy, Debug, PartialEq, Eq, Structural)]
pub struct Vec3Fp {
    pub x: i64,
    pub y: i64,
    pub z: i64,
}

impl Vec3Fp {
    /// The origin.
    pub fn zero() -> (v: Vec3Fp)
        ensures
            v == (Vec3Fp { x: 0, y: 0, z: 0 }),
    {
        Vec3Fp { x: 0, y: 0, z: 0 }
    }

    /// The all-ones vector: white, as a color.
    pub fn one() -> (v: Vec3Fp)
        ensures
            v == (Vec3Fp { x: FP_ONE, y: FP_ONE, z: FP_ONE }),
    {
        Vec3Fp { x: FP_ONE, y: FP_ONE, z: FP_ONE }
    }
}

/// A two-component fixed-point vector (millionths per component).
#[derive(Clone, Copy, Debug, PartialEq, Eq, Structural)]
pub struct Vec2Fp {
    pub x: i64,
    pub y: i64,
}

/// One corner of a geometry template: a position and a texture
/// coordinate.
#[derive(Clone, Copy, Debug, PartialEq, Eq, Structural)]
pub struct Vertex {
    pub position: Vec3Fp,
    pub tex_coords: Vec2Fp,
}

/// One drawable copy of the geometry template.
#[derive(Clone, Copy, Debug, PartialEq, Eq, Structural)]
pub struct Instance {
    pub position: Vec3Fp,
    pub color: Vec3Fp,
}

/// What `Instance::to_raw` returns: the same six scalars, flattened.
pub open spec fn raw_of(i: Instance) -> InstanceRaw {
    InstanceRaw {
        position: i.position,
        color: i.color,
    }
}

impl Instance {
    /// Flatten this instance into its GPU-layout mirror.
    pub fn to_raw(&self) -> (r: InstanceRaw)
        ensures
            r == raw_of(*self),
    {
        InstanceRaw {
            position: self.position,
            color: self.color,
        }
    }

    /// A default instance: at the origin, colored white.
    pub fn new() -> (i: Self)
        ensures
            i == (Instance {
                position: Vec3Fp { x: 0, y: 0, z: 0 },
                color: Vec3Fp { x: FP_ONE, y: FP_ONE, z: FP_ONE },
            }),
    {
        Instance {
            position: Vec3Fp::zero(),
            color: Vec3Fp::one(),
        }
    }
}

impl Default for Instance {
    /// Same value as `Instance::new`: origin position, white color.
    fn default() -> (i: Self)
        ensures
            i == (Instance {
                position: Vec3Fp { x: 0, y: 0, z: 0 },
                color: Vec3Fp { x: FP_ONE, y: FP_ONE, z: FP_ONE },
            }),
    {
        Instance::new()
    }
}

/// GPU-layout mirror of `Instance`: regenerated from an instance set on
/// every update, never hand-edited.
#[derive(Clone, Copy, Debug, PartialEq, Eq, Structural)]
pub struct InstanceRaw {
    pub position: Vec3Fp,
    pub color: Vec3Fp,
}

} // verus!
