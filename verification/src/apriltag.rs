//! Marker families.
//!
//! A fiducial marker is identified by its family (the dictionary it was
//! printed from) and its integer id within that family. The detector that
//! actually finds markers in images is an external collaborator; this module
//! only carries the family identity the rest of the core keys on.

use vstd::prelude::*;

verus! {

/// The marker families the external detector understands.
#[derive(Clone, Copy, PartialEq, Eq, Structural, Debug, Hash)]
pub enum ApriltagFamily {
    Tag16h5,
    Tag25h9,
    Tag36h10,
    Tag36h11,
    TagCircle21h7,
    TagCircle49h12,
    TagCustom48h12,
    TagStandard41h12,
    TagStandard52h13,
}

/// Raised when a configuration names a marker family this system does not know.
#[derive(Clone, PartialEq, Eq, Debug)]
pub struct UnsupportedTagFamilyError {
    /// The family name as the configuration spelled it.
    pub name: String,
}

/// The family denoted by a configuration-file name, if any.
pub open spec fn spec_family_from_name(s: Seq<char>) -> Option<ApriltagFamily> {
    if s == "tag16h5"@ {
        Some(ApriltagFamily::Tag16h5)
    } else if s == "tag25h9"@ {
        Some(ApriltagFamily::Tag25h9)
    } else if s == "tag36h10"@ {
        Some(ApriltagFamily::Tag36h10)
    } else if s == "tag36h11"@ {
        Some(ApriltagFamily::Tag36h11)
    } else if s == "tagCircle21h7"@ {
        Some(ApriltagFamily::TagCircle21h7)
    } else if s == "tagCircle49h12"@ {
        Some(ApriltagFamily::TagCircle49h12)
    } else if s == "tagCustom48h12"@ {
        Some(ApriltagFamily::TagCustom48h12)
    } else if s == "tagStandard41h12"@ {
        Some(ApriltagFamily::TagStandard41h12)
    } else if s == "tagStandard52h13"@ {
        Some(ApriltagFamily::TagStandard52h13)
    } else {
        None
    }
}

/// Whether two string slices hold the same characters.
pub(crate) fn str_eq(a: &str, b: &str) -> (r: bool)
    ensures
        r == (a@ == b@),
{
    let a_owned: String = a.to_owned();
    let b_owned: String = b.to_owned();
    a_owned == b_owned
}

impl ApriltagFamily {
    /// Resolve a configuration-file family name to a family.
    pub fn from_name(value: &str) -> (r: Result<ApriltagFamily, UnsupportedTagFamilyError>)
        ensures
            match r {
                Ok(f) => spec_family_from_name(value@) == Some(f),
                Err(e) => spec_family_from_name(value@) is None && e.name@ == value@,
            },
    {
        if str_eq(value, "tag16h5") {
            Ok(ApriltagFamily::Tag16h5)
        } else if str_eq(value, "tag25h9") {
            Ok(ApriltagFamily::Tag25h9)
        } else if str_eq(value, "tag36h10") {
            Ok(ApriltagFamily::Tag36h10)
        } else if str_eq(value, "tag36h11") {
            Ok(ApriltagFamily::Tag36h11)
        } else if str_eq(value, "tagCircle21h7") {
            Ok(ApriltagFamily::TagCircle21h7)
        } else if str_eq(value, "tagCircle49h12") {
            Ok(ApriltagFamily::TagCircle49h12)
        } else if str_eq(value, "tagCustom48h12") {
            Ok(ApriltagFamily::TagCustom48h12)
        } else if str_eq(value, "tagStandard41h12") {
            Ok(ApriltagFamily::TagStandard41h12)
        } else if str_eq(value, "tagStandard52h13") {
            Ok(ApriltagFamily::TagStandard52h13)
        } else {
            Err(UnsupportedTagFamilyError { name: value.to_owned() })
        }
    }
}

} // verus!
