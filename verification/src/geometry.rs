//! Plain carriers for the real-valued data that flows through the locator.
//!
//! The locator's own logic never performs real arithmetic: it routes corner
//! coordinates, transforms and poses between the detector, the solver and the
//! consumers. Each real number is therefore carried as the bit pattern of an
//! IEEE-754 double, which makes every type here plain data with exact
//! structural equality.

use vstd::prelude::*;

verus! {

/// One real number, held as the bit pattern of an IEEE-754 double.
///
/// The locator routes these values unchanged; interpreting or combining them
/// numerically is the callers' business.
#[derive(Clone, Copy, PartialEq, Eq, Structural, Debug)]
pub struct Scalar {
    pub bits: u64,
}

/// A point or vector in the image plane.
#[derive(Clone, Copy, PartialEq, Eq, Structural, Debug)]
pub struct Vec2 {
    pub x: Scalar,
    pub y: Scalar,
}

/// A point or vector in three-dimensional space.
#[derive(Clone, Copy, PartialEq, Eq, Structural, Debug)]
pub struct Vec3 {
    pub x: Scalar,
    pub y: Scalar,
    pub z: Scalar,
}

impl Vec3 {
    /// The zero vector.
    pub open spec fn spec_zero() -> Vec3 {
        Vec3 { x: Scalar { bits: 0 }, y: Scalar { bits: 0 }, z: Scalar { bits: 0 } }
    }

    /// The zero vector.
    pub fn zero() -> (r: Vec3)
        ensures
            r == Vec3::spec_zero(),
    {
        Vec3 { x: Scalar { bits: 0 }, y: Scalar { bits: 0 }, z: Scalar { bits: 0 } }
    }
}

/// A 3-by-3 matrix in row-major order.
#[derive(Clone, Copy, PartialEq, Eq, Structural, Debug)]
pub struct Mat3 {
    pub m00: Scalar,
    pub m01: Scalar,
    pub m02: Scalar,
    pub m10: Scalar,
    pub m11: Scalar,
    pub m12: Scalar,
    pub m20: Scalar,
    pub m21: Scalar,
    pub m22: Scalar,
}

/// A rotation as a quaternion in `(i, j, k, w)` order, as the wire protocol
/// streams it.
#[derive(Clone, Copy, PartialEq, Eq, Structural, Debug)]
pub struct Quaternion {
    pub i: Scalar,
    pub j: Scalar,
    pub k: Scalar,
    pub w: Scalar,
}

/// A rigid transform between two reference frames: a unit quaternion rotation
/// plus a translation, no scale.
#[derive(Clone, Copy, PartialEq, Eq, Structural, Debug)]
pub struct Isometry {
    pub rotation: Quaternion,
    pub translation: Vec3,
}

} // verus!
