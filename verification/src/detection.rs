//! One marker detection, as the external corner detector reports it.

use vstd::prelude::*;

use crate::apriltag::ApriltagFamily;
use crate::geometry::{Scalar, Vec2};
use crate::tagged_object::TagIndex;

verus! {

/// The four corners of a detected marker, in the detector's fixed order
/// (consistent with the marker's local corner convention).
#[derive(Clone, Copy, PartialEq, Eq, Structural, Debug)]
pub struct Quad {
    pub c0: Vec2,
    pub c1: Vec2,
    pub c2: Vec2,
    pub c3: Vec2,
}

/// One detection in one frame: which marker was seen, where, and how
/// confidently.
#[derive(Clone, Copy, PartialEq, Eq, Structural, Debug)]
pub struct TagDetection {
    /// The detected marker's family.
    pub family: ApriltagFamily,
    /// The detected marker's id within its family.
    pub id: i32,
    /// Number of error bits corrected while decoding the marker.
    pub hamming: i32,
    /// The detector's confidence in the decode.
    pub decision_margin: Scalar,
    /// The marker's center in pixel coordinates.
    pub center: Vec2,
    /// The marker's corners in pixel coordinates.
    pub corners: Quad,
}

impl TagDetection {
    /// The identity of the detected marker.
    pub open spec fn spec_tag_index(self) -> TagIndex {
        TagIndex { family: self.family, id: self.id }
    }

    /// The identity of the detected marker.
    pub fn tag_index(&self) -> (r: TagIndex)
        ensures
            r == self.spec_tag_index(),
    {
        TagIndex { family: self.family, id: self.id }
    }
}

} // verus!
