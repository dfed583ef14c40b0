//! Errors of object registration and object-description loading.

use vstd::prelude::*;

use crate::tagged_object::TagIndex;

verus! {

/// Raised when an object-description document's shape is invalid.
#[derive(Clone, PartialEq, Eq, Debug)]
pub struct InvalidFormatError {
    /// What was wrong with the document.
    pub reason: String,
}

impl InvalidFormatError {
    pub fn new(reason: &str) -> (r: InvalidFormatError)
        ensures
            r.reason@ == reason@,
    {
        InvalidFormatError { reason: reason.to_owned() }
    }
}

/// Raised when an object-description document declares a format version this
/// system does not support.
#[derive(Clone, Copy, PartialEq, Eq, Debug)]
pub struct UnsupportedVersionError {
    /// The version the document declared.
    pub version: i64,
    /// The inclusive range of versions this system accepts.
    pub supported_versions: (i64, i64),
}

impl UnsupportedVersionError {
    pub fn new(version: i64, supported_versions: (i64, i64)) -> (r: UnsupportedVersionError)
        ensures
            r == (UnsupportedVersionError { version, supported_versions }),
    {
        UnsupportedVersionError { version, supported_versions }
    }
}

/// Raised when a registration would claim a marker or a name that an earlier
/// registration already owns.
#[derive(Clone, PartialEq, Eq, Debug)]
pub struct ConflictingTagError {
    /// The marker both objects claim, or `None` for a name conflict.
    pub tag: Option<TagIndex>,
    /// The name of the object that already owns the contested marker or name.
    pub object1: String,
    /// The name of the object whose registration was refused.
    pub object2: String,
}

impl ConflictingTagError {
    /// A conflict on the marker `tag`, owned by `object1` and claimed again by
    /// `object2`.
    pub fn new(tag: TagIndex, object1: String, object2: String) -> (r: ConflictingTagError)
        ensures
            r.tag == Some(tag),
            r.object1 == object1,
            r.object2 == object2,
    {
        ConflictingTagError { tag: Some(tag), object1, object2 }
    }

    /// A conflict on an object name claimed twice.
    pub fn new_name(name: &str) -> (r: ConflictingTagError)
        ensures
            r.tag is None,
            r.object1@ == name@,
            r.object2@ == name@,
    {
        ConflictingTagError { tag: None, object1: name.to_owned(), object2: name.to_owned() }
    }
}

} // verus!
