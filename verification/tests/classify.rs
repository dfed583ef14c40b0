//! Partitioning one frame's detections by owning object.

use tag_locator::apriltag::ApriltagFamily;
use tag_locator::camera::{CameraProperty, Distortion};
use tag_locator::detection::{Quad, TagDetection};
use tag_locator::geometry::{Mat3, Scalar, Vec2};
use tag_locator::locator::TaggedObjectLocator;
use tag_locator::tagged_object::{TagIndex, TagLocation, TaggedObject};

fn scalar(x: f64) -> Scalar {
    Scalar { bits: x.to_bits() }
}

fn test_camera() -> CameraProperty {
    let m = Mat3 {
        m00: scalar(1.0),
        m01: scalar(0.0),
        m02: scalar(0.0),
        m10: scalar(0.0),
        m11: scalar(1.0),
        m12: scalar(0.0),
        m20: scalar(0.0),
        m21: scalar(0.0),
        m22: scalar(1.0),
    };
    CameraProperty::new((640, 480), (None, None), m, Distortion::zero())
}

fn detection(id: i32, cx: f64) -> TagDetection {
    let p = Vec2 {
        x: scalar(cx),
        y: scalar(0.0),
    };
    TagDetection {
        family: ApriltagFamily::Tag36h11,
        id,
        hamming: 0,
        decision_margin: scalar(50.0),
        center: p,
        corners: Quad {
            c0: p,
            c1: p,
            c2: p,
            c3: p,
        },
    }
}

#[test]
fn groups_by_object_in_registry_order() {
    let mut locator = TaggedObjectLocator::new(test_camera());
    // object 0 carries markers 0 and 1; object 1 carries marker 2
    let mut a = TaggedObject::new("a".to_string());
    a.insert_tag(
        TagIndex::new(ApriltagFamily::Tag36h11, 0),
        TagLocation::new_size(scalar(1.0)),
    );
    a.insert_tag(
        TagIndex::new(ApriltagFamily::Tag36h11, 1),
        TagLocation::new_size(scalar(2.0)),
    );
    let b = TaggedObject::new_simple("b".to_string(), ApriltagFamily::Tag36h11, 2, scalar(3.0));
    locator.add(a).unwrap();
    locator.add(b).unwrap();

    // frame order: b's marker, a's marker 1, an unknown marker, a's marker 0
    let detections = vec![
        detection(2, 10.0),
        detection(1, 20.0),
        detection(99, 30.0),
        detection(0, 40.0),
    ];
    let groups = locator.classify_detections(&detections);

    assert_eq!(groups.len(), 2);
    // ascending registry order
    assert_eq!(groups[0].object_index, 0);
    assert_eq!(groups[1].object_index, 1);
    // object 0's detections keep frame order and carry their placements
    assert_eq!(groups[0].detections.len(), 2);
    assert_eq!(groups[0].detections[0].0.id, 1);
    assert_eq!(groups[0].detections[0].1.size, scalar(2.0));
    assert_eq!(groups[0].detections[1].0.id, 0);
    assert_eq!(groups[0].detections[1].1.size, scalar(1.0));
    // object 1 saw one marker
    assert_eq!(groups[1].detections.len(), 1);
    assert_eq!(groups[1].detections[0].0.id, 2);
    assert_eq!(groups[1].detections[0].1.size, scalar(3.0));
}

#[test]
fn unknown_markers_only_give_no_groups() {
    let mut locator = TaggedObjectLocator::new(test_camera());
    let a = TaggedObject::new_simple("a".to_string(), ApriltagFamily::Tag36h11, 0, scalar(1.0));
    locator.add(a).unwrap();
    let detections = vec![detection(5, 1.0), detection(6, 2.0)];
    let groups = locator.classify_detections(&detections);
    assert!(groups.is_empty());
}

#[test]
fn empty_frame_gives_no_groups() {
    let mut locator = TaggedObjectLocator::new(test_camera());
    let a = TaggedObject::new_simple("a".to_string(), ApriltagFamily::Tag36h11, 0, scalar(1.0));
    locator.add(a).unwrap();
    let groups = locator.classify_detections(&Vec::new());
    assert!(groups.is_empty());
}

#[test]
fn invisible_object_gets_no_group() {
    let mut locator = TaggedObjectLocator::new(test_camera());
    let a = TaggedObject::new_simple("a".to_string(), ApriltagFamily::Tag36h11, 0, scalar(1.0));
    let b = TaggedObject::new_simple("b".to_string(), ApriltagFamily::Tag36h11, 1, scalar(1.0));
    locator.add(a).unwrap();
    locator.add(b).unwrap();
    let detections = vec![detection(1, 1.0)];
    let groups = locator.classify_detections(&detections);
    assert_eq!(groups.len(), 1);
    assert_eq!(groups[0].object_index, 1);
}
