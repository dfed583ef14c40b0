//! The versioned object-description format: accepted shapes, skipped
//! entries, and rejection errors.

use tag_locator::apriltag::ApriltagFamily;
use tag_locator::geometry::Scalar;
use tag_locator::tagged_object::{Rotation, TagIndex, TaggedObject};
use tag_locator::tagobj::{JsonValue, TagObjError};

fn scalar(x: f64) -> Scalar {
    Scalar { bits: x.to_bits() }
}

fn num(x: f64) -> JsonValue {
    JsonValue::Number {
        as_int: if x == (x as i64) as f64 { Some(x as i64) } else { None },
        bits: x.to_bits(),
    }
}

fn int_num(x: i64) -> JsonValue {
    JsonValue::Number {
        as_int: Some(x),
        bits: (x as f64).to_bits(),
    }
}

fn arr(xs: &[f64]) -> JsonValue {
    JsonValue::Array(xs.iter().map(|x| num(*x)).collect())
}

fn obj(fields: Vec<(&str, JsonValue)>) -> JsonValue {
    JsonValue::Object(
        fields
            .into_iter()
            .map(|(k, v)| (k.to_string(), v))
            .collect(),
    )
}

fn mapping() -> Vec<(String, TagIndex)> {
    vec![
        ("UL".to_string(), TagIndex::new(ApriltagFamily::Tag36h11, 0)),
        ("UR".to_string(), TagIndex::new(ApriltagFamily::Tag36h11, 1)),
    ]
}

fn find(obj: &TaggedObject, t: TagIndex) -> Option<&tag_locator::tagged_object::TagLocation> {
    obj.tags.iter().find(|(i, _)| *i == t).map(|(_, l)| l)
}

#[test]
fn rejects_non_object_document() {
    let doc = JsonValue::Array(vec![]);
    let err = TaggedObject::new_from_json("o".to_string(), &doc, &mapping()).unwrap_err();
    match err {
        TagObjError::Format(f) => assert_eq!(f.reason, "tagobj file must be an object!"),
        _ => panic!("expected a format error"),
    }
}

#[test]
fn rejects_missing_version() {
    let doc = obj(vec![("tags", obj(vec![]))]);
    let err = TaggedObject::new_from_json("o".to_string(), &doc, &mapping()).unwrap_err();
    match err {
        TagObjError::Format(f) => {
            assert_eq!(f.reason, "tagobj file must have a 'version' field!")
        }
        _ => panic!("expected a format error"),
    }
}

#[test]
fn rejects_non_integer_version() {
    let doc = obj(vec![("version", JsonValue::Text("1".to_string()))]);
    let err = TaggedObject::new_from_json("o".to_string(), &doc, &mapping()).unwrap_err();
    match err {
        TagObjError::Format(f) => assert_eq!(f.reason, "tagobj version must be an integer!"),
        _ => panic!("expected a format error"),
    }
}

#[test]
fn rejects_unsupported_version() {
    let doc = obj(vec![("version", int_num(2)), ("tags", obj(vec![]))]);
    let err = TaggedObject::new_from_json("o".to_string(), &doc, &mapping()).unwrap_err();
    match err {
        TagObjError::Version(u) => {
            assert_eq!(u.version, 2);
            assert_eq!(u.supported_versions, (1, 1));
        }
        _ => panic!("expected a version error"),
    }
}

#[test]
fn rejects_missing_tags_field() {
    let doc = obj(vec![("version", int_num(1))]);
    let err = TaggedObject::new_from_json("o".to_string(), &doc, &mapping()).unwrap_err();
    match err {
        TagObjError::Format(f) => {
            assert_eq!(f.reason, "version 1 tagobj file must have a 'tags' field!")
        }
        _ => panic!("expected a format error"),
    }
}

#[test]
fn rejects_non_object_tags_field() {
    let doc = obj(vec![("version", int_num(1)), ("tags", arr(&[1.0]))]);
    let err = TaggedObject::new_from_json("o".to_string(), &doc, &mapping()).unwrap_err();
    match err {
        TagObjError::Format(f) => {
            assert_eq!(f.reason, "version 1 tagobj file's 'tags' field must be an array!")
        }
        _ => panic!("expected a format error"),
    }
}

#[test]
fn reads_rotation_vector_entry() {
    let entry = obj(vec![
        ("size", num(0.5)),
        ("tv", arr(&[1.0, 2.0, 3.0])),
        ("rv", arr(&[0.1, 0.2, 0.3])),
    ]);
    let doc = obj(vec![
        ("version", int_num(1)),
        ("tags", obj(vec![("UL", entry)])),
    ]);
    let o = TaggedObject::new_from_json("screen".to_string(), &doc, &mapping()).unwrap();
    assert_eq!(o.name, "screen");
    assert_eq!(o.tags.len(), 1);
    let loc = find(&o, TagIndex::new(ApriltagFamily::Tag36h11, 0)).unwrap();
    assert_eq!(loc.size, scalar(0.5));
    assert_eq!(loc.translation.y, scalar(2.0));
    match loc.rotation {
        Rotation::Vector(v) => {
            assert_eq!(v.x, scalar(0.1));
            assert_eq!(v.z, scalar(0.3));
        }
        _ => panic!("expected a rotation vector"),
    }
}

#[test]
fn reads_rotation_matrix_entry_as_columns() {
    let entry = obj(vec![
        ("size", num(2.0)),
        ("tv", arr(&[0.0, 0.0, 0.0])),
        (
            "rm",
            obj(vec![
                ("x", arr(&[1.0, 2.0, 3.0])),
                ("y", arr(&[4.0, 5.0, 6.0])),
                ("z", arr(&[7.0, 8.0, 9.0])),
            ]),
        ),
    ]);
    let doc = obj(vec![
        ("version", int_num(1)),
        ("tags", obj(vec![("UR", entry)])),
    ]);
    let o = TaggedObject::new_from_json("screen".to_string(), &doc, &mapping()).unwrap();
    let loc = find(&o, TagIndex::new(ApriltagFamily::Tag36h11, 1)).unwrap();
    match loc.rotation {
        Rotation::Matrix(m) => {
            // the x/y/z arrays are the matrix's columns
            assert_eq!(m.m00, scalar(1.0));
            assert_eq!(m.m01, scalar(4.0));
            assert_eq!(m.m02, scalar(7.0));
            assert_eq!(m.m10, scalar(2.0));
            assert_eq!(m.m21, scalar(6.0));
            assert_eq!(m.m22, scalar(9.0));
        }
        _ => panic!("expected a rotation matrix"),
    }
}

#[test]
fn skips_malformed_entries() {
    let good = obj(vec![
        ("size", num(1.0)),
        ("tv", arr(&[0.0, 0.0, 0.0])),
        ("rv", arr(&[0.0, 0.0, 0.0])),
    ]);
    let both_rotations = obj(vec![
        ("size", num(1.0)),
        ("tv", arr(&[0.0, 0.0, 0.0])),
        ("rv", arr(&[0.0, 0.0, 0.0])),
        ("rm", obj(vec![])),
    ]);
    let short_tv = obj(vec![
        ("size", num(1.0)),
        ("tv", arr(&[0.0, 0.0])),
        ("rv", arr(&[0.0, 0.0, 0.0])),
    ]);
    let no_size = obj(vec![
        ("tv", arr(&[0.0, 0.0, 0.0])),
        ("rv", arr(&[0.0, 0.0, 0.0])),
    ]);
    let no_rotation = obj(vec![("size", num(1.0)), ("tv", arr(&[0.0, 0.0, 0.0]))]);
    let doc = obj(vec![
        ("version", int_num(1)),
        (
            "tags",
            obj(vec![
                ("UL", good),
                ("UR", both_rotations),
                ("unknown-id", obj(vec![])),
                ("UR", short_tv),
                ("UR", no_size),
                ("UR", no_rotation),
            ]),
        ),
    ]);
    let o = TaggedObject::new_from_json("screen".to_string(), &doc, &mapping()).unwrap();
    assert_eq!(o.tags.len(), 1);
    assert!(find(&o, TagIndex::new(ApriltagFamily::Tag36h11, 0)).is_some());
    assert!(find(&o, TagIndex::new(ApriltagFamily::Tag36h11, 1)).is_none());
}

#[test]
fn later_entry_for_same_marker_wins() {
    let first = obj(vec![
        ("size", num(1.0)),
        ("tv", arr(&[0.0, 0.0, 0.0])),
        ("rv", arr(&[0.0, 0.0, 0.0])),
    ]);
    let second = obj(vec![
        ("size", num(9.0)),
        ("tv", arr(&[0.0, 0.0, 0.0])),
        ("rv", arr(&[0.0, 0.0, 0.0])),
    ]);
    // two template ids that resolve to the same marker
    let mapping = vec![
        ("A".to_string(), TagIndex::new(ApriltagFamily::Tag36h11, 0)),
        ("B".to_string(), TagIndex::new(ApriltagFamily::Tag36h11, 0)),
    ];
    let doc = obj(vec![
        ("version", int_num(1)),
        ("tags", obj(vec![("A", first), ("B", second)])),
    ]);
    let o = TaggedObject::new_from_json("screen".to_string(), &doc, &mapping).unwrap();
    assert_eq!(o.tags.len(), 1);
    let loc = find(&o, TagIndex::new(ApriltagFamily::Tag36h11, 0)).unwrap();
    assert_eq!(loc.size, scalar(9.0));
}

#[test]
fn empty_tags_object_gives_empty_object() {
    let doc = obj(vec![("version", int_num(1)), ("tags", obj(vec![]))]);
    let o = TaggedObject::new_from_json("empty".to_string(), &doc, &mapping()).unwrap();
    assert_eq!(o.name, "empty");
    assert_eq!(o.tags.len(), 0);
}
