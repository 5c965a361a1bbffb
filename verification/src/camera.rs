//! The per-frame camera snapshot.
//!
//! The host's camera system produces this snapshot once per frame; the core
//! only copies it into the uniform block and never mutates it.

use vstd::prelude::*;

use crate::scalar::{Mat4Bits, Vec3Bits};

verus! {

/// World translation and the two inverse camera matrices, as raw scalars.
#[derive(Clone, Copy, PartialEq, Eq, Structural, Debug)]
pub struct CameraMatrices {
    /// World-space translation of the camera.
    pub translation: Vec3Bits,
    /// Inverse of the camera's view matrix.
    pub inverse_camera_view: Mat4Bits,
    /// Inverse of the camera's projection matrix.
    pub inverse_camera_projection: Mat4Bits,
}

impl CameraMatrices {
    /// The snapshot used before the camera system has run: zero translation,
    /// identity matrices.
    pub open spec fn spec_initial() -> CameraMatrices {
        CameraMatrices {
            translation: Vec3Bits::spec_zero(),
            inverse_camera_view: Mat4Bits::spec_identity(),
            inverse_camera_projection: Mat4Bits::spec_identity(),
        }
    }

    /// Builds the pre-camera snapshot.
    #[verifier::when_used_as_spec(spec_initial)]
    pub fn initial() -> (c: CameraMatrices)
        ensures
            c == CameraMatrices::spec_initial(),
    {
        CameraMatrices {
            translation: Vec3Bits::zero(),
            inverse_camera_view: Mat4Bits::identity(),
            inverse_camera_projection: Mat4Bits::identity(),
        }
    }
}

} // verus!
