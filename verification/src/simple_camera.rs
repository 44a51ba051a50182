//! Camera model and its GPU uniform.
//!
//! A `Camera` holds the eye, target, up vector, vertical field of view in
//! degrees, aspect ratio and near/far planes, all in fixed point. Its
//! view-projection matrix is a right-handed look-at view combined with a
//! right-handed perspective projection; everything that determines that
//! matrix — the field of view converted to radians, and the remaining
//! parameters passed through — is computed here as a `ViewProjection`
//! value, from which the float matrix itself is derived outside the
//! library. `build_view_projection_matrix` is a pure function of the
//! camera's fields: equal cameras yield equal results, and nothing is
//! cached.
//!
//! `CameraUniform` is the render state's record of the matrix the GPU
//! holds: the identity until the first synchronization, then exactly the
//! view-projection of the camera it was last updated from. It changes
//! only through `update_view_projection`, never implicitly.

use vstd::prelude::*;

verus! {

use crate::fp::FP_ONE;
use crate::fp::PI_FP;
use crate::fp::tdiv;
use crate::fp::lemma_mul_bound;
use crate::generics::Vec3Fp;

/// Largest field-of-view magnitude (in fixed-point degrees) a camera may
/// hold; keeps the degree-to-radian product inside `i64`.
pub const FOVY_LIMIT: i64 = 1_000_000_000_000;

/// Bytes the camera uniform occupies on the GPU: a 4-by-4 matrix of
/// 32-bit floats.
pub const CAMERA_UNIFORM_BYTES: u64 = 64;

/// A perspective camera.
#[derive(Clone, Copy, Debug, PartialEq, Eq, Structural)]
pub struct Camera {
    pub aspect: i64,
    pub eye: Vec3Fp,
    pub target: Vec3Fp,
    pub up: Vec3Fp,
    pub fovy: i64,
    pub znear: i64,
    pub zfar: i64,
}

/// A field of view in fixed-point degrees, as fixed-point radians:
/// `fovy / 180 * pi`.
pub open spec fn fovy_to_radians(fovy: int) -> int {
    tdiv(fovy * PI_FP, 180 * FP_ONE)
}

/// Everything the view-projection matrix is a function of: the radian
/// field of view and the camera's remaining parameters.
#[derive(Clone, Copy, Debug, PartialEq, Eq, Structural)]
pub struct ViewProjection {
    pub eye: Vec3Fp,
    pub target: Vec3Fp,
    pub up: Vec3Fp,
    pub fovy_radians: i64,
    pub aspect: i64,
    pub znear: i64,
    pub zfar: i64,
}

/// The view-projection of a camera: a pure function of its fields.
pub open spec fn view_projection(c: Camera) -> ViewProjection {
    ViewProjection {
        eye: c.eye,
        target: c.target,
        up: c.up,
        fovy_radians: fovy_to_radians(c.fovy as int) as i64,
        aspect: c.aspect,
        znear: c.znear,
        zfar: c.zfar,
    }
}

/// The camera's field of view is small enough to convert to radians.
pub open spec fn camera_wf(c: Camera) -> bool {
    -FOVY_LIMIT <= c.fovy <= FOVY_LIMIT
}

/// Aspect ratio of a width-by-height viewport, in fixed point.
pub open spec fn spec_aspect_of(width: int, height: int) -> int {
    (width * FP_ONE) / height
}

/// Aspect ratio of a width-by-height viewport, in fixed point.
pub fn aspect_of(width: u32, height: u32) -> (r: i64)
    requires
        height > 0,
    ensures
        r == spec_aspect_of(width as int, height as int),
{
    ((width as i64) * FP_ONE) / (height as i64)
}

impl Camera {
    /// The parameters the view-projection matrix is built from, the
    /// field of view converted to radians. Recomputed on every call
    /// from the current fields alone: equal cameras give equal results.
    pub fn build_view_projection_matrix(&self) -> (m: ViewProjection)
        requires
            camera_wf(*self),
        ensures
            m == view_projection(*self),
    {
        proof {
            lemma_mul_bound(self.fovy as int, PI_FP as int, FOVY_LIMIT as int, PI_FP as int);
        }
        let fovy_radians: i64 = (self.fovy * PI_FP) / (180 * FP_ONE);
        ViewProjection {
            eye: self.eye,
            target: self.target,
            up: self.up,
            fovy_radians,
            aspect: self.aspect,
            znear: self.znear,
            zfar: self.zfar,
        }
    }
}

impl Default for Camera {
    /// A 16:9 camera at four units out on the z-axis, looking at the
    /// origin with y up: a 90-degree field of view, planes at 0.1 and
    /// 100.
    fn default() -> (c: Self)
        ensures
            c == (Camera {
                aspect: spec_aspect_of(16, 9) as i64,
                eye: Vec3Fp { x: 0, y: 0, z: 4_000_000 },
                target: Vec3Fp { x: 0, y: 0, z: 0 },
                up: Vec3Fp { x: 0, y: FP_ONE, z: 0 },
                fovy: 90_000_000,
                znear: 100_000,
                zfar: 100_000_000,
            }),
            camera_wf(c),
    {
        Camera {
            aspect: aspect_of(16, 9),
            eye: Vec3Fp { x: 0, y: 0, z: 4 * FP_ONE },
            target: Vec3Fp { x: 0, y: 0, z: 0 },
            up: Vec3Fp { x: 0, y: FP_ONE, z: 0 },
            fovy: 90 * FP_ONE,
            znear: 100_000,
            zfar: 100 * FP_ONE,
        }
    }
}

/// The render state's record of the view-projection matrix held in the
/// GPU's uniform buffer: `None` is the identity matrix, `Some` the
/// view-projection last synchronized.
#[derive(Clone, Copy, Debug, PartialEq, Eq, Structural)]
pub struct CameraUniform {
    pub view_projection: Option<ViewProjection>,
}

impl CameraUniform {
    /// A fresh uniform: the identity matrix.
    pub fn new() -> (u: Self)
        ensures
            u.view_projection.is_none(),
    {
        CameraUniform { view_projection: None }
    }

    /// Synchronize the uniform with the camera: afterwards it holds
    /// exactly the camera's view-projection.
    pub fn update_view_projection(&mut self, camera: &Camera)
        requires
            camera_wf(*camera),
        ensures
            final(self).view_projection == Some(view_projection(*camera)),
    {
        self.view_projection = Some(camera.build_view_projection_matrix());
    }
}

/// The view-projection is deterministic: cameras with equal parameters
/// have equal view-projections, and synchronizing a uniform twice from
/// the same camera leaves it exactly where one synchronization does.
pub proof fn lemma_view_projection_deterministic(a: Camera, b: Camera)
    requires
        a == b,
    ensures
        view_projection(a) == view_projection(b),
{
}

} // verus!
