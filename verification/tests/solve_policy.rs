//! The seed-reuse policy and path selection of the per-object solve.

use tag_locator::apriltag::ApriltagFamily;
use tag_locator::camera::{CameraProperty, Distortion};
use tag_locator::geometry::{Mat3, Scalar, Vec3};
use tag_locator::locator::{TaggedObjectLocator, OBJECT_FORGET_DURATION_MS};
use tag_locator::tagged_object::TaggedObject;

fn scalar(x: f64) -> Scalar {
    Scalar { bits: x.to_bits() }
}

fn vec3(x: f64, y: f64, z: f64) -> Vec3 {
    Vec3 {
        x: scalar(x),
        y: scalar(y),
        z: scalar(z),
    }
}

fn test_camera() -> CameraProperty {
    let m = Mat3 {
        m00: scalar(1.0),
        m01: scalar(0.0),
        m02: scalar(0.0),
        m10: scalar(0.0),
        m11: scalar(1.0),
        m12: scalar(0.0),
        m20: scalar(0.0),
        m21: scalar(0.0),
        m22: scalar(1.0),
    };
    CameraProperty::new((640, 480), (None, None), m, Distortion::zero())
}

fn locator_with_one_object() -> TaggedObjectLocator {
    let mut locator = TaggedObjectLocator::new(test_camera());
    let obj = TaggedObject::new_simple(
        "obj".to_string(),
        ApriltagFamily::Tag36h11,
        0,
        scalar(1.0),
    );
    locator.add(obj).unwrap();
    locator
}

#[test]
fn cold_solve_without_seed() {
    let locator = locator_with_one_object();
    let plan = locator.plan_solve(2, Some(0), 5_000).unwrap();
    assert!(!plan.use_square);
    assert!(plan.seed.is_none());
}

#[test]
fn single_detection_selects_square_path() {
    let locator = locator_with_one_object();
    let plan = locator.plan_solve(1, Some(0), 5_000).unwrap();
    assert!(plan.use_square);
}

#[test]
fn one_shot_query_has_no_seed_and_records_nothing() {
    let mut locator = locator_with_one_object();
    let plan = locator.plan_solve(3, None, 5_000).unwrap();
    assert!(plan.seed.is_none());
    locator.record_solve(None, false, vec3(0.1, 0.0, 0.0), vec3(0.0, 0.0, 2.0), 5_000);
    // the registered object's slot is still empty
    let plan = locator.plan_solve(3, Some(0), 5_000).unwrap();
    assert!(plan.seed.is_none());
}

#[test]
fn recorded_solve_seeds_the_next_solve() {
    let mut locator = locator_with_one_object();
    let rvec = vec3(0.1, 0.2, 0.3);
    let tvec = vec3(1.0, 2.0, 3.0);
    locator.record_solve(Some(0), false, rvec, tvec, 10_000);
    let plan = locator.plan_solve(2, Some(0), 10_500).unwrap();
    let seed = plan.seed.unwrap();
    assert_eq!(seed.rvec, rvec);
    assert_eq!(seed.tvec, tvec);
    assert_eq!(seed.timestamp_ms, 10_000);
}

#[test]
fn seed_at_forget_window_boundary_is_still_reused() {
    let mut locator = locator_with_one_object();
    locator.record_solve(Some(0), false, vec3(0.0, 0.0, 0.0), vec3(0.0, 0.0, 1.0), 10_000);
    // inclusive boundary: age of exactly the forget window is fresh
    let plan = locator
        .plan_solve(2, Some(0), 10_000 + OBJECT_FORGET_DURATION_MS)
        .unwrap();
    assert!(plan.seed.is_some());
}

#[test]
fn stale_seed_is_not_reused() {
    let mut locator = locator_with_one_object();
    locator.record_solve(Some(0), false, vec3(0.0, 0.0, 0.0), vec3(0.0, 0.0, 1.0), 10_000);
    // one millisecond past the window: solve cold
    let plan = locator
        .plan_solve(2, Some(0), 10_000 + OBJECT_FORGET_DURATION_MS + 1)
        .unwrap();
    assert!(plan.seed.is_none());
}

#[test]
fn seed_from_the_future_is_a_clock_error() {
    let mut locator = locator_with_one_object();
    locator.record_solve(Some(0), false, vec3(0.0, 0.0, 0.0), vec3(0.0, 0.0, 1.0), 10_000);
    let err = locator.plan_solve(2, Some(0), 9_999).unwrap_err();
    assert_eq!(err.seed_timestamp_ms, 10_000);
    assert_eq!(err.timestamp_ms, 9_999);
}

#[test]
fn square_path_solve_does_not_touch_the_seed() {
    let mut locator = locator_with_one_object();
    locator.record_solve(Some(0), true, vec3(0.5, 0.5, 0.5), vec3(9.0, 9.0, 9.0), 10_000);
    let plan = locator.plan_solve(2, Some(0), 10_001).unwrap();
    assert!(plan.seed.is_none());
}

#[test]
fn newer_solve_overwrites_the_seed() {
    let mut locator = locator_with_one_object();
    locator.record_solve(Some(0), false, vec3(0.1, 0.0, 0.0), vec3(0.0, 0.0, 1.0), 10_000);
    locator.record_solve(Some(0), false, vec3(0.2, 0.0, 0.0), vec3(0.0, 0.0, 2.0), 10_400);
    let plan = locator.plan_solve(2, Some(0), 10_500).unwrap();
    let seed = plan.seed.unwrap();
    assert_eq!(seed.timestamp_ms, 10_400);
    assert_eq!(seed.rvec, vec3(0.2, 0.0, 0.0));
}
