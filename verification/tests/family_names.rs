//! Resolving configuration-file family names.

use tag_locator::apriltag::ApriltagFamily;
use tag_locator::camera::CameraProperty;
use tag_locator::geometry::Scalar;

#[test]
fn known_family_names_resolve() {
    assert_eq!(
        ApriltagFamily::from_name("tag16h5").unwrap(),
        ApriltagFamily::Tag16h5
    );
    assert_eq!(
        ApriltagFamily::from_name("tag25h9").unwrap(),
        ApriltagFamily::Tag25h9
    );
    assert_eq!(
        ApriltagFamily::from_name("tag36h10").unwrap(),
        ApriltagFamily::Tag36h10
    );
    assert_eq!(
        ApriltagFamily::from_name("tag36h11").unwrap(),
        ApriltagFamily::Tag36h11
    );
    assert_eq!(
        ApriltagFamily::from_name("tagCircle21h7").unwrap(),
        ApriltagFamily::TagCircle21h7
    );
    assert_eq!(
        ApriltagFamily::from_name("tagCircle49h12").unwrap(),
        ApriltagFamily::TagCircle49h12
    );
    assert_eq!(
        ApriltagFamily::from_name("tagCustom48h12").unwrap(),
        ApriltagFamily::TagCustom48h12
    );
    assert_eq!(
        ApriltagFamily::from_name("tagStandard41h12").unwrap(),
        ApriltagFamily::TagStandard41h12
    );
    assert_eq!(
        ApriltagFamily::from_name("tagStandard52h13").unwrap(),
        ApriltagFamily::TagStandard52h13
    );
}

#[test]
fn unknown_family_name_is_reported() {
    let err = ApriltagFamily::from_name("tag99h9").unwrap_err();
    assert_eq!(err.name, "tag99h9");
}

#[test]
fn fov_must_be_given_for_an_uncalibrated_camera() {
    assert!(CameraProperty::require_fov(&(None, None)).is_err());
    let fov = Scalar {
        bits: 0.87f64.to_bits(),
    };
    assert!(CameraProperty::require_fov(&(Some(fov), None)).is_ok());
    assert!(CameraProperty::require_fov(&(None, Some(fov))).is_ok());
    assert!(CameraProperty::require_fov(&(Some(fov), Some(fov))).is_ok());
}
