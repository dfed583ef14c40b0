//! Core of a fiducial-marker object locator.
//!
//! Rigid objects carry constellations of square markers at known offsets from
//! the object's center. Per frame, a detector reports marker corners in pixel
//! coordinates and an external perspective-n-point solver turns point
//! correspondences into poses. This crate holds the verified core around those
//! collaborators: the object registry with its conflict rules, the grouping of
//! raw detections by owning object, the seed-reuse policy for warm-starting
//! the solver, the shared result store and publish discipline, the wire-packet
//! layout, and the versioned object-description format.
//!
//! All real-valued data (corner coordinates, transforms, poses) flows through
//! this crate as opaque IEEE-754 bit patterns ([`geometry::Scalar`]); the
//! floating-point arithmetic itself lives with the unverified callers that
//! drive the camera, the detector and the solver.

pub mod apriltag;
pub mod camera;
pub mod detection;
pub mod error;
pub mod geometry;
pub mod locator;
pub mod packet;
pub mod pipeline;
pub mod tagged_object;
pub mod tagobj;
