//! The camera model: resolution, optional field of view, intrinsic matrix and
//! distortion coefficients.
//!
//! Deriving an uncalibrated intrinsic matrix from a field of view is real
//! arithmetic (half-angle tangents and divisions) and is done by the caller
//! that owns the camera; [`CameraProperty::require_fov`] states the one
//! decision of that derivation — some field of view must be present.

use vstd::prelude::*;

use crate::geometry::{Mat3, Scalar};

verus! {

/// The five distortion coefficients `(k1, k2, p1, p2, k3)` of the standard
/// radial-tangential lens model; all zero for an uncalibrated camera.
#[derive(Clone, Copy, PartialEq, Eq, Structural, Debug)]
pub struct Distortion {
    pub k1: Scalar,
    pub k2: Scalar,
    pub p1: Scalar,
    pub p2: Scalar,
    pub k3: Scalar,
}

impl Distortion {
    /// All coefficients zero.
    pub open spec fn spec_zero() -> Distortion {
        Distortion {
            k1: Scalar { bits: 0 },
            k2: Scalar { bits: 0 },
            p1: Scalar { bits: 0 },
            p2: Scalar { bits: 0 },
            k3: Scalar { bits: 0 },
        }
    }

    /// All coefficients zero.
    pub fn zero() -> (r: Distortion)
        ensures
            r == Distortion::spec_zero(),
    {
        Distortion {
            k1: Scalar { bits: 0 },
            k2: Scalar { bits: 0 },
            p1: Scalar { bits: 0 },
            p2: Scalar { bits: 0 },
            k3: Scalar { bits: 0 },
        }
    }
}

/// Raised when no intrinsic calibration is supplied and neither field-of-view
/// component is present, so no intrinsic matrix can be derived.
#[derive(Clone, Copy, PartialEq, Eq, Structural, Debug)]
pub struct MissingFovError {}

/// Intrinsic parameters of the camera. Immutable after construction; cloned
/// freely by every part that needs a read-only camera model.
#[derive(Clone, Copy, PartialEq, Eq, Debug)]
pub struct CameraProperty {
    /// Sensor resolution in pixels, `(x, y)`.
    pub resolution: (u32, u32),
    /// Field of view in radians on the x and y axes, where known.
    pub fov: (Option<Scalar>, Option<Scalar>),
    /// The 3-by-3 intrinsic matrix, calibrated or derived from the field of
    /// view.
    pub camera_mat: Mat3,
    /// Lens distortion coefficients; zero when uncalibrated.
    pub distortion: Distortion,
}

impl CameraProperty {
    /// Bundle the camera's parameters. The intrinsic matrix is either a
    /// calibrated one or the caller's field-of-view derivation.
    pub fn new(
        resolution: (u32, u32),
        fov: (Option<Scalar>, Option<Scalar>),
        camera_mat: Mat3,
        distortion: Distortion,
    ) -> (r: CameraProperty)
        ensures
            r == (CameraProperty { resolution, fov, camera_mat, distortion }),
    {
        CameraProperty { resolution, fov, camera_mat, distortion }
    }

    /// Check that an intrinsic matrix can be derived from `fov`: the field of
    /// view must be specified on the x or the y component.
    pub fn require_fov(fov: &(Option<Scalar>, Option<Scalar>)) -> (r: Result<(), MissingFovError>)
        ensures
            r is Ok <==> (fov.0 is Some || fov.1 is Some),
    {
        if fov.0.is_some() || fov.1.is_some() {
            Ok(())
        } else {
            Err(MissingFovError {})
        }
    }

    /// The intrinsic matrix.
    pub fn camera_mat(&self) -> (r: &Mat3)
        ensures
            r == self.camera_mat,
    {
        &self.camera_mat
    }
}

} // verus!
