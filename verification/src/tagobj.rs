//! The versioned object-description format.
//!
//! Objects are described on disk as JSON: a top-level integer `version` and,
//! for version 1, a `tags` object mapping template-local string ids to marker
//! placements — `{size, tv, rv}` with a rotation vector, or `{size, tv, rm}`
//! with rotation-matrix columns, exactly one of `rv`/`rm` present. An
//! external id-mapping table resolves each template-local id to a concrete
//! marker identity.
//!
//! The unverified reader parses the JSON text and hands the document over as
//! a [`JsonValue`] tree of plain values (numbers as their integer reading
//! where integral, plus their double bit pattern); everything the format
//! means — which shapes are accepted, which entries are skipped, what object
//! comes out — is decided here.

use vstd::prelude::*;

use crate::apriltag::str_eq;
use crate::error::{InvalidFormatError, UnsupportedVersionError};
use crate::geometry::{Mat3, Scalar, Vec3};
use crate::tagged_object::{tags_contain, tags_lookup, TagIndex, TagLocation, TaggedObject};

verus! {

/// A JSON document value, as plain data.
#[derive(Debug)]
pub enum JsonValue {
    Null,
    Bool(bool),
    /// A number: its value as a signed integer where the document stored an
    /// integer that fits one, and its value's bit pattern as a double.
    Number { as_int: Option<i64>, bits: u64 },
    Text(String),
    Array(Vec<JsonValue>),
    /// An object's fields in document order; keys are distinct after JSON
    /// parsing.
    Object(Vec<(String, JsonValue)>),
}

/// The fields of `v`, if it is an object.
pub open spec fn spec_as_object(v: JsonValue) -> Option<Seq<(String, JsonValue)>> {
    match v {
        JsonValue::Object(fields) => Some(fields@),
        _ => None,
    }
}

/// The elements of `v`, if it is an array.
pub open spec fn spec_as_array(v: JsonValue) -> Option<Seq<JsonValue>> {
    match v {
        JsonValue::Array(elements) => Some(elements@),
        _ => None,
    }
}

/// The integer reading of `v`, if it is a number stored as an integer.
pub open spec fn spec_as_i64(v: JsonValue) -> Option<i64> {
    match v {
        JsonValue::Number { as_int, .. } => as_int,
        _ => None,
    }
}

/// The double bit pattern of `v`, if it is a number.
pub open spec fn spec_number_bits(v: JsonValue) -> Option<u64> {
    match v {
        JsonValue::Number { bits, .. } => Some(bits),
        _ => None,
    }
}

/// The first field of `fields` named `key`, if any.
pub open spec fn spec_get(fields: Seq<(String, JsonValue)>, key: Seq<char>) -> Option<JsonValue>
    decreases fields.len(),
{
    if fields.len() == 0 {
        None
    } else if fields[0].0@ == key {
        Some(fields[0].1)
    } else {
        spec_get(fields.skip(1), key)
    }
}

/// The first marker identity `id_mapping` binds `id_ref` to, if any.
pub open spec fn spec_id_lookup(id_mapping: Seq<(String, TagIndex)>, id_ref: Seq<char>) -> Option<
    TagIndex,
>
    decreases id_mapping.len(),
{
    if id_mapping.len() == 0 {
        None
    } else if id_mapping[0].0@ == id_ref {
        Some(id_mapping[0].1)
    } else {
        spec_id_lookup(id_mapping.skip(1), id_ref)
    }
}

/// The vector read from the first three elements of `arr`, all of which must
/// be numbers; further elements are ignored.
pub open spec fn spec_vec3_of(arr: Seq<JsonValue>) -> Option<Vec3> {
    if arr.len() < 3 {
        None
    } else {
        match (spec_number_bits(arr[0]), spec_number_bits(arr[1]), spec_number_bits(arr[2])) {
            (Some(x), Some(y), Some(z)) => Some(
                Vec3 { x: Scalar { bits: x }, y: Scalar { bits: y }, z: Scalar { bits: z } },
            ),
            _ => None,
        }
    }
}

/// The rotation matrix whose columns are read from the arrays `rx`, `ry`,
/// `rz`.
pub open spec fn spec_mat3_of(rx: Seq<JsonValue>, ry: Seq<JsonValue>, rz: Seq<JsonValue>) -> Option<
    Mat3,
> {
    match (spec_vec3_of(rx), spec_vec3_of(ry), spec_vec3_of(rz)) {
        (Some(x), Some(y), Some(z)) => Some(
            Mat3 {
                m00: x.x,
                m01: y.x,
                m02: z.x,
                m10: x.y,
                m11: y.y,
                m12: z.y,
                m20: x.z,
                m21: y.z,
                m22: z.z,
            },
        ),
        _ => None,
    }
}

/// The rotation part of an entry, read from its `rm`/`rv` fields, combined
/// with the already-read size and translation. Exactly one of `rm` and `rv`
/// must be present; any malformation skips the entry.
pub open spec fn spec_parse_rotation(
    fields: Seq<(String, JsonValue)>,
    id: TagIndex,
    size: Scalar,
    tv: Vec3,
) -> Option<(TagIndex, TagLocation)> {
    match (spec_get(fields, "rm"@), spec_get(fields, "rv"@)) {
        (Some(_), Some(_)) => None,
        (Some(rm), None) => match spec_as_object(rm) {
            None => None,
            Some(rmf) => match (
                spec_get(rmf, "x"@),
                spec_get(rmf, "y"@),
                spec_get(rmf, "z"@),
            ) {
                (Some(xv), Some(yv), Some(zv)) => match (
                    spec_as_array(xv),
                    spec_as_array(yv),
                    spec_as_array(zv),
                ) {
                    (Some(rx), Some(ry), Some(rz)) => match spec_mat3_of(rx, ry, rz) {
                        None => None,
                        Some(m) => Some((id, TagLocation::with_rotation_matrix(size, m, tv))),
                    },
                    _ => None,
                },
                _ => None,
            },
        },
        (None, Some(rv)) => match spec_as_array(rv) {
            None => None,
            Some(arr) => match spec_vec3_of(arr) {
                None => None,
                Some(v3) => Some((id, TagLocation::with_rotation_vector(size, v3, tv))),
            },
        },
        (None, None) => None,
    }
}

/// What one `tags` entry contributes: the marker identity its template id
/// resolves to and the placement its fields describe, or nothing if the
/// entry is malformed in any way (unknown template id, non-object value,
/// missing or non-numeric `size`, missing or short `tv`, neither or both of
/// `rv`/`rm`).
pub open spec fn spec_parse_entry(
    id_mapping: Seq<(String, TagIndex)>,
    id_ref: Seq<char>,
    v: JsonValue,
) -> Option<(TagIndex, TagLocation)> {
    match spec_id_lookup(id_mapping, id_ref) {
        None => None,
        Some(id) => match spec_as_object(v) {
            None => None,
            Some(fields) => match spec_get(fields, "size"@) {
                None => None,
                Some(sv) => match spec_number_bits(sv) {
                    None => None,
                    Some(size_bits) => match spec_get(fields, "tv"@) {
                        None => None,
                        Some(tvv) => match spec_as_array(tvv) {
                            None => None,
                            Some(tv_arr) => match spec_vec3_of(tv_arr) {
                                None => None,
                                Some(tv) => spec_parse_rotation(
                                    fields,
                                    id,
                                    Scalar { bits: size_bits },
                                    tv,
                                ),
                            },
                        },
                    },
                },
            },
        },
    }
}

/// The placement the whole `tags` object leaves marker `t` with: that of the
/// last entry that resolves to `t` and parses, entries being processed in
/// document order with later bindings replacing earlier ones.
pub open spec fn spec_collect(
    id_mapping: Seq<(String, TagIndex)>,
    entries: Seq<(String, JsonValue)>,
    t: TagIndex,
) -> Option<TagLocation>
    decreases entries.len(),
{
    if entries.len() == 0 {
        None
    } else {
        let last = entries.last();
        match spec_parse_entry(id_mapping, last.0@, last.1) {
            Some(p) => if p.0 == t {
                Some(p.1)
            } else {
                spec_collect(id_mapping, entries.drop_last(), t)
            },
            None => spec_collect(id_mapping, entries.drop_last(), t),
        }
    }
}

impl JsonValue {
    /// The fields of this value, if it is an object.
    pub fn as_object(&self) -> (r: Option<&Vec<(String, JsonValue)>>)
        ensures
            match r {
                Some(fields) => spec_as_object(*self) == Some(fields@),
                None => spec_as_object(*self) is None,
            },
    {
        match self {
            JsonValue::Object(fields) => Some(fields),
            _ => None,
        }
    }

    /// The elements of this value, if it is an array.
    pub fn as_array(&self) -> (r: Option<&Vec<JsonValue>>)
        ensures
            match r {
                Some(elements) => spec_as_array(*self) == Some(elements@),
                None => spec_as_array(*self) is None,
            },
    {
        match self {
            JsonValue::Array(elements) => Some(elements),
            _ => None,
        }
    }

    /// The integer reading of this value, if it is an integer-stored number.
    pub fn as_i64(&self) -> (r: Option<i64>)
        ensures
            r == spec_as_i64(*self),
    {
        match self {
            JsonValue::Number { as_int, .. } => *as_int,
            _ => None,
        }
    }

    /// The double bit pattern of this value, if it is a number.
    pub fn number_bits(&self) -> (r: Option<u64>)
        ensures
            r == spec_number_bits(*self),
    {
        match self {
            JsonValue::Number { bits, .. } => Some(*bits),
            _ => None,
        }
    }
}

/// The first field of `fields` named `key`, if any.
pub fn get_field<'a>(fields: &'a Vec<(String, JsonValue)>, key: &str) -> (r: Option<
    &'a JsonValue,
>)
    ensures
        match r {
            Some(v) => spec_get(fields@, key@) == Some(*v),
            None => spec_get(fields@, key@) is None,
        },
{
    let n = fields.len();
    let mut i: usize = 0;
    proof {
        assert(fields@.skip(0) =~= fields@);
    }
    while i < n
        invariant
            n == fields@.len(),
            i <= n,
            spec_get(fields@, key@) == spec_get(fields@.skip(i as int), key@),
        decreases n - i,
    {
        proof {
            assert(fields@.skip(i as int)[0] == fields@[i as int]);
            assert(fields@.skip(i as int).skip(1) =~= fields@.skip(i + 1 as int));
        }
        if str_eq(fields[i].0.as_str(), key) {
            return Some(&fields[i].1);
        }
        i += 1;
    }
    proof {
        assert(fields@.skip(n as int).len() == 0);
    }
    None
}

/// The first marker identity `id_mapping` binds `id_ref` to, if any.
pub fn id_lookup(id_mapping: &Vec<(String, TagIndex)>, id_ref: &str) -> (r: Option<TagIndex>)
    ensures
        r == spec_id_lookup(id_mapping@, id_ref@),
{
    let n = id_mapping.len();
    let mut i: usize = 0;
    proof {
        assert(id_mapping@.skip(0) =~= id_mapping@);
    }
    while i < n
        invariant
            n == id_mapping@.len(),
            i <= n,
            spec_id_lookup(id_mapping@, id_ref@) == spec_id_lookup(
                id_mapping@.skip(i as int),
                id_ref@,
            ),
        decreases n - i,
    {
        proof {
            assert(id_mapping@.skip(i as int)[0] == id_mapping@[i as int]);
            assert(id_mapping@.skip(i as int).skip(1) =~= id_mapping@.skip(i + 1 as int));
        }
        if str_eq(id_mapping[i].0.as_str(), id_ref) {
            return Some(id_mapping[i].1);
        }
        i += 1;
    }
    proof {
        assert(id_mapping@.skip(n as int).len() == 0);
    }
    None
}

/// The vector read from the first three elements of `arr`.
pub fn vec3_of(arr: &Vec<JsonValue>) -> (r: Option<Vec3>)
    ensures
        r == spec_vec3_of(arr@),
{
    if arr.len() < 3 {
        return None;
    }
    let x = match arr[0].number_bits() {
        Some(b) => b,
        None => {
            return None;
        },
    };
    let y = match arr[1].number_bits() {
        Some(b) => b,
        None => {
            return None;
        },
    };
    let z = match arr[2].number_bits() {
        Some(b) => b,
        None => {
            return None;
        },
    };
    Some(Vec3 { x: Scalar { bits: x }, y: Scalar { bits: y }, z: Scalar { bits: z } })
}

/// The rotation matrix whose columns are read from `rx`, `ry`, `rz`.
pub fn mat3_of(rx: &Vec<JsonValue>, ry: &Vec<JsonValue>, rz: &Vec<JsonValue>) -> (r: Option<Mat3>)
    ensures
        r == spec_mat3_of(rx@, ry@, rz@),
{
    let x = match vec3_of(rx) {
        Some(v) => v,
        None => {
            return None;
        },
    };
    let y = match vec3_of(ry) {
        Some(v) => v,
        None => {
            return None;
        },
    };
    let z = match vec3_of(rz) {
        Some(v) => v,
        None => {
            return None;
        },
    };
    Some(
        Mat3 {
            m00: x.x,
            m01: y.x,
            m02: z.x,
            m10: x.y,
            m11: y.y,
            m12: z.y,
            m20: x.z,
            m21: y.z,
            m22: z.z,
        },
    )
}

/// One `tags` entry's contribution, exactly as [`spec_parse_entry`] reads
/// it.
pub fn parse_entry(
    id_mapping: &Vec<(String, TagIndex)>,
    id_ref: &str,
    v: &JsonValue,
) -> (r: Option<(TagIndex, TagLocation)>)
    ensures
        r == spec_parse_entry(id_mapping@, id_ref@, *v),
{
    let id = match id_lookup(id_mapping, id_ref) {
        Some(id) => id,
        None => {
            return None;
        },
    };
    let fields = match v.as_object() {
        Some(fields) => fields,
        None => {
            return None;
        },
    };
    let size_bits = match get_field(fields, "size") {
        Some(sv) => match sv.number_bits() {
            Some(b) => b,
            None => {
                return None;
            },
        },
        None => {
            return None;
        },
    };
    let tv = match get_field(fields, "tv") {
        Some(tvv) => match tvv.as_array() {
            Some(arr) => match vec3_of(arr) {
                Some(tv) => tv,
                None => {
                    return None;
                },
            },
            None => {
                return None;
            },
        },
        None => {
            return None;
        },
    };
    let size = Scalar { bits: size_bits };
    match (get_field(fields, "rm"), get_field(fields, "rv")) {
        (Some(_), Some(_)) => None,
        (Some(rm), None) => {
            let rmf = match rm.as_object() {
                Some(rmf) => rmf,
                None => {
                    return None;
                },
            };
            match (get_field(rmf, "x"), get_field(rmf, "y"), get_field(rmf, "z")) {
                (Some(xv), Some(yv), Some(zv)) => {
                    match (xv.as_array(), yv.as_array(), zv.as_array()) {
                        (Some(rx), Some(ry), Some(rz)) => match mat3_of(rx, ry, rz) {
                            Some(m) => Some((id, TagLocation::new_from_matrix(size, m, tv))),
                            None => None,
                        },
                        _ => None,
                    }
                },
                _ => None,
            }
        },
        (None, Some(rv)) => match rv.as_array() {
            Some(arr) => match vec3_of(arr) {
                Some(v3) => Some((id, TagLocation::new(size, v3, tv))),
                None => None,
            },
            None => None,
        },
        (None, None) => None,
    }
}

/// Why an object description was rejected.
#[derive(Clone, PartialEq, Eq, Debug)]
pub enum TagObjError {
    /// The document's shape is invalid.
    Format(InvalidFormatError),
    /// The document declares a version this system does not support.
    Version(UnsupportedVersionError),
}

impl TaggedObject {
    /// Build a tagged object from an object-description document.
    ///
    /// The document must be an object with an integer `version` field;
    /// version 1 must carry a `tags` object. Each `tags` entry contributes
    /// one marker — resolved through `id_mapping` and read as
    /// [`spec_parse_entry`] says — with malformed entries skipped and later
    /// entries for the same marker replacing earlier ones.
    pub fn new_from_json(
        name: String,
        tagobj: &JsonValue,
        id_mapping: &Vec<(String, TagIndex)>,
    ) -> (r: Result<TaggedObject, TagObjError>)
        ensures
            match r {
                Ok(obj) => {
                    &&& spec_as_object(*tagobj) matches Some(fields)
                    &&& spec_get(fields, "version"@) matches Some(vv)
                    &&& spec_as_i64(vv) == Some(1i64)
                    &&& spec_get(fields, "tags"@) matches Some(tagsv)
                    &&& spec_as_object(tagsv) matches Some(entries)
                    &&& obj.name == name
                    &&& obj.wf()
                    &&& forall|t: TagIndex|
                        tags_contain(obj.tags@, t) <==> spec_collect(id_mapping@, entries, t)
                            is Some
                    &&& forall|t: TagIndex|
                        tags_contain(obj.tags@, t) ==> Some(tags_lookup(obj.tags@, t))
                            == spec_collect(id_mapping@, entries, t)
                },
                Err(TagObjError::Version(u)) => {
                    &&& spec_as_object(*tagobj) matches Some(fields)
                    &&& spec_get(fields, "version"@) matches Some(vv)
                    &&& spec_as_i64(vv) matches Some(ver)
                    &&& ver != 1
                    &&& u.version == ver
                    &&& u.supported_versions == (1i64, 1i64)
                },
                Err(TagObjError::Format(f)) => {
                    if spec_as_object(*tagobj) is None {
                        f.reason@ == "tagobj file must be an object!"@
                    } else {
                        let fields = spec_as_object(*tagobj)->Some_0;
                        if spec_get(fields, "version"@) is None {
                            f.reason@ == "tagobj file must have a 'version' field!"@
                        } else if spec_as_i64(spec_get(fields, "version"@)->Some_0) is None {
                            f.reason@ == "tagobj version must be an integer!"@
                        } else if spec_as_i64(spec_get(fields, "version"@)->Some_0) == Some(1i64) {
                            if spec_get(fields, "tags"@) is None {
                                f.reason@ == "version 1 tagobj file must have a 'tags' field!"@
                            } else {
                                &&& spec_as_object(spec_get(fields, "tags"@)->Some_0) is None
                                &&& f.reason@
                                    == "version 1 tagobj file's 'tags' field must be an array!"@
                            }
                        } else {
                            false
                        }
                    }
                },
            },
    {
        let fields = match tagobj.as_object() {
            Some(f) => f,
            None => {
                return Err(
                    TagObjError::Format(InvalidFormatError::new("tagobj file must be an object!")),
                );
            },
        };
        let version = match get_field(fields, "version") {
            Some(vv) => match vv.as_i64() {
                Some(v) => v,
                None => {
                    return Err(
                        TagObjError::Format(
                            InvalidFormatError::new("tagobj version must be an integer!"),
                        ),
                    );
                },
            },
            None => {
                return Err(
                    TagObjError::Format(
                        InvalidFormatError::new("tagobj file must have a 'version' field!"),
                    ),
                );
            },
        };
        if version == 1 {
            let tags_value = match get_field(fields, "tags") {
                Some(t) => t,
                None => {
                    return Err(
                        TagObjError::Format(
                            InvalidFormatError::new(
                                "version 1 tagobj file must have a 'tags' field!",
                            ),
                        ),
                    );
                },
            };
            let entries = match tags_value.as_object() {
                Some(e) => e,
                None => {
                    return Err(
                        TagObjError::Format(
                            InvalidFormatError::new(
                                "version 1 tagobj file's 'tags' field must be an array!",
                            ),
                        ),
                    );
                },
            };
            let ghost gname = name;
            let mut obj = TaggedObject::new(name);
            let n = entries.len();
            let mut i: usize = 0;
            while i < n
                invariant
                    n == entries@.len(),
                    i <= n,
                    obj.wf(),
                    obj.name == gname,
                    forall|t: TagIndex|
                        tags_contain(obj.tags@, t) <==> spec_collect(
                            id_mapping@,
                            entries@.take(i as int),
                            t,
                        ) is Some,
                    forall|t: TagIndex|
                        tags_contain(obj.tags@, t) ==> Some(tags_lookup(obj.tags@, t))
                            == spec_collect(id_mapping@, entries@.take(i as int), t),
                decreases n - i,
            {
                let parsed = parse_entry(id_mapping, entries[i].0.as_str(), &entries[i].1);
                proof {
                    assert(entries@.take(i + 1 as int).drop_last() =~= entries@.take(i as int));
                    assert(entries@.take(i + 1 as int).last() == entries@[i as int]);
                }
                let ghost tags_before = obj.tags@;
                match parsed {
                    Some(p) => {
                        let (tag_id, tag_loc) = p;
                        obj.insert_tag(tag_id, tag_loc);
                        proof {
                            assert forall|t: TagIndex|
                                tags_contain(obj.tags@, t) <==> spec_collect(
                                    id_mapping@,
                                    entries@.take(i + 1 as int),
                                    t,
                                ) is Some by {
                                if t != tag_id {
                                    assert(tags_contain(obj.tags@, t) == tags_contain(
                                        tags_before,
                                        t,
                                    ));
                                }
                            }
                            assert forall|t: TagIndex|
                                tags_contain(obj.tags@, t) implies Some(
                                tags_lookup(obj.tags@, t),
                            ) == spec_collect(id_mapping@, entries@.take(i + 1 as int), t) by {
                                if t != tag_id {
                                    assert(tags_contain(tags_before, t));
                                    assert(tags_lookup(obj.tags@, t) == tags_lookup(
                                        tags_before,
                                        t,
                                    ));
                                }
                            }
                        }
                    },
                    None => {
                        proof {
                            assert(forall|t: TagIndex|
                                spec_collect(id_mapping@, entries@.take(i + 1 as int), t)
                                    == spec_collect(id_mapping@, entries@.take(i as int), t));
                        }
                    },
                }
                i += 1;
            }
            proof {
                assert(entries@.take(n as int) =~= entries@);
            }
            Ok(obj)
        } else {
            Err(TagObjError::Version(UnsupportedVersionError::new(version, (1, 1))))
        }
    }
}

} // verus!
