//! The rigid-object data model.
//!
//! A tagged object is a named set of markers, each with a fixed similarity
//! transform (isotropic scale, rotation, translation) from the marker's local
//! frame — a unit square centered at the origin with corners at `(±1, ±1, 0)`
//! — into the object's local frame.

use vstd::prelude::*;

use crate::apriltag::ApriltagFamily;
use crate::geometry::{Mat3, Scalar, Vec3};

verus! {

/// Identity of one physical marker: its family and its integer id within the
/// family. No two registered objects may claim the same `TagIndex`.
#[derive(Clone, Copy, PartialEq, Eq, Structural, Debug, Hash)]
pub struct TagIndex {
    pub family: ApriltagFamily,
    pub id: i32,
}

impl TagIndex {
    pub fn new(family: ApriltagFamily, id: i32) -> (r: TagIndex)
        ensures
            r == (TagIndex { family, id }),
    {
        TagIndex { family, id }
    }
}

/// The rotation part of a marker's placement, as a configuration supplies it:
/// either a scaled-axis rotation vector or the three columns of a rotation
/// matrix.
#[derive(Clone, Copy, PartialEq, Eq, Structural, Debug)]
pub enum Rotation {
    Vector(Vec3),
    Matrix(Mat3),
}

/// The fixed similarity transform from a marker's local corner coordinates
/// into the owning object's frame.
///
/// `size` is the marker's physical side length; the isotropic scale of the
/// realized transform is half of it, so that the unit-square corners land on
/// the marker's physical corners. The numeric composition of scale, rotation
/// and translation happens where the transform is consumed; this type carries
/// the three parts exactly as configured.
#[derive(Clone, Copy, PartialEq, Eq, Structural, Debug)]
pub struct TagLocation {
    pub size: Scalar,
    pub rotation: Rotation,
    pub translation: Vec3,
}

impl TagLocation {
    /// A marker of side length `size` sitting at the object's origin with no
    /// rotation or translation.
    pub fn new_size(size: Scalar) -> (r: TagLocation)
        ensures
            r == TagLocation::with_rotation_vector(size, Vec3::spec_zero(), Vec3::spec_zero()),
    {
        TagLocation { size, rotation: Rotation::Vector(Vec3::zero()), translation: Vec3::zero() }
    }

    /// The placement given by a rotation vector and a translation vector.
    pub open spec fn with_rotation_vector(size: Scalar, rv: Vec3, tv: Vec3) -> TagLocation {
        TagLocation { size, rotation: Rotation::Vector(rv), translation: tv }
    }

    /// The placement given by a rotation matrix and a translation vector.
    pub open spec fn with_rotation_matrix(size: Scalar, rm: Mat3, tv: Vec3) -> TagLocation {
        TagLocation { size, rotation: Rotation::Matrix(rm), translation: tv }
    }

    /// Create a tag location from side length, rotation vector, and
    /// translation vector. The realized transform scales first, then rotates,
    /// then translates.
    pub fn new(size: Scalar, rv: Vec3, tv: Vec3) -> (r: TagLocation)
        ensures
            r == TagLocation::with_rotation_vector(size, rv, tv),
    {
        TagLocation { size, rotation: Rotation::Vector(rv), translation: tv }
    }

    /// As [`TagLocation::new`], with the rotation given as a matrix.
    pub fn new_from_matrix(size: Scalar, rm: Mat3, tv: Vec3) -> (r: TagLocation)
        ensures
            r == TagLocation::with_rotation_matrix(size, rm, tv),
    {
        TagLocation { size, rotation: Rotation::Matrix(rm), translation: tv }
    }
}

/// A named rigid object and the placements of its markers.
///
/// Built once at startup, immutable thereafter; the locator indexes into it
/// for the lifetime of a run.
#[derive(Clone, Debug)]
pub struct TaggedObject {
    pub name: String,
    /// Marker placements, keyed by marker identity; keys are distinct.
    pub tags: Vec<(TagIndex, TagLocation)>,
}

/// Whether a marker association list binds each `TagIndex` at most once.
pub open spec fn tags_distinct(tags: Seq<(TagIndex, TagLocation)>) -> bool {
    forall|i: int, j: int| 0 <= i < j < tags.len() ==> #[trigger] tags[i].0 != #[trigger] tags[j].0
}

/// Whether `tags` binds the marker `t`.
pub open spec fn tags_contain(tags: Seq<(TagIndex, TagLocation)>, t: TagIndex) -> bool {
    exists|i: int| 0 <= i < tags.len() && #[trigger] tags[i].0 == t
}

/// The position at which `tags` binds the marker `t`. Meaningful only when
/// [`tags_contain`] holds; with distinct keys that position is unique.
pub open spec fn tags_index_of(tags: Seq<(TagIndex, TagLocation)>, t: TagIndex) -> int {
    choose|i: int| 0 <= i < tags.len() && #[trigger] tags[i].0 == t
}

/// The placement `tags` binds the marker `t` to. Meaningful only when
/// [`tags_contain`] holds.
pub open spec fn tags_lookup(tags: Seq<(TagIndex, TagLocation)>, t: TagIndex) -> TagLocation {
    tags[tags_index_of(tags, t)].1
}

/// With distinct keys, the binding position of the key at `k` is `k` itself.
pub proof fn lemma_tags_lookup_at(tags: Seq<(TagIndex, TagLocation)>, k: int)
    requires
        tags_distinct(tags),
        0 <= k < tags.len(),
    ensures
        tags_contain(tags, tags[k].0),
        tags_index_of(tags, tags[k].0) == k,
        tags_lookup(tags, tags[k].0) == tags[k].1,
{
    let t = tags[k].0;
    assert(tags_contain(tags, t));
    let j = tags_index_of(tags, t);
    assert(0 <= j < tags.len() && tags[j].0 == t);
    if j != k {
        if j < k {
            assert(tags[j].0 != tags[k].0);
        } else {
            assert(tags[k].0 != tags[j].0);
        }
    }
}

impl TaggedObject {
    /// A well-formed object binds each of its markers exactly once.
    pub open spec fn wf(self) -> bool {
        tags_distinct(self.tags@)
    }

    /// Create an empty tagged object.
    pub fn new(name: String) -> (r: TaggedObject)
        ensures
            r.name == name,
            r.tags@.len() == 0,
            r.wf(),
    {
        TaggedObject { name, tags: Vec::new() }
    }

    /// Create a tagged object carrying a single marker with no relative
    /// transformation.
    pub fn new_simple(name: String, family: ApriltagFamily, id: i32, size: Scalar) -> (r:
        TaggedObject)
        ensures
            r.name == name,
            r.tags@ =~= seq![
                (TagIndex { family, id }, TagLocation::with_rotation_vector(
                    size,
                    Vec3::spec_zero(),
                    Vec3::spec_zero(),
                )),
            ],
            r.wf(),
    {
        let mut tags: Vec<(TagIndex, TagLocation)> = Vec::new();
        tags.push((TagIndex::new(family, id), TagLocation::new_size(size)));
        TaggedObject { name, tags }
    }

    /// Bind marker `t` to `loc`, replacing any earlier binding of `t`.
    pub fn insert_tag(&mut self, t: TagIndex, loc: TagLocation)
        requires
            old(self).wf(),
        ensures
            final(self).wf(),
            final(self).name == old(self).name,
            tags_contain(final(self).tags@, t),
            tags_lookup(final(self).tags@, t) == loc,
            // every other marker keeps its binding
            forall|u: TagIndex|
                u != t ==> #[trigger] tags_contain(final(self).tags@, u) == tags_contain(
                    old(self).tags@,
                    u,
                ),
            forall|u: TagIndex|
                u != t && tags_contain(old(self).tags@, u) ==> #[trigger] tags_lookup(
                    final(self).tags@,
                    u,
                ) == tags_lookup(old(self).tags@, u),
    {
        let n = self.tags.len();
        let mut i: usize = 0;
        while i < n
            invariant
                n == self.tags@.len(),
                i <= n,
                *self == *old(self),
                old(self).wf(),
                forall|k: int| 0 <= k < i ==> #[trigger] self.tags@[k].0 != t,
            decreases n - i,
        {
            if self.tags[i].0 == t {
                self.tags[i] = (t, loc);
                proof {
                    lemma_tags_update(old(self).tags@, i as int, t, loc);
                }
                return ;
            }
            i += 1;
        }
        self.tags.push((t, loc));
        proof {
            lemma_tags_push(old(self).tags@, t, loc);
        }
    }
}

/// Replacing the (unique) binding at `i` rebinds that key and nothing else.
proof fn lemma_tags_update(tags: Seq<(TagIndex, TagLocation)>, i: int, t: TagIndex, loc: TagLocation)
    requires
        tags_distinct(tags),
        0 <= i < tags.len(),
        tags[i].0 == t,
    ensures
        tags_distinct(tags.update(i, (t, loc))),
        tags_contain(tags.update(i, (t, loc)), t),
        tags_lookup(tags.update(i, (t, loc)), t) == loc,
        forall|u: TagIndex|
            u != t ==> #[trigger] tags_contain(tags.update(i, (t, loc)), u) == tags_contain(
                tags,
                u,
            ),
        forall|u: TagIndex|
            u != t && tags_contain(tags, u) ==> #[trigger] tags_lookup(tags.update(i, (t, loc)), u)
                == tags_lookup(tags, u),
{
    let updated = tags.update(i, (t, loc));
    assert forall|p: int, q: int| 0 <= p < q < updated.len() implies updated[p].0 != updated[q].0 by {
        if p != i {
            assert(updated[p] == tags[p]);
        }
        if q != i {
            assert(updated[q] == tags[q]);
        }
        assert(tags[p].0 != tags[q].0);
    }
    assert(updated[i].0 == t);
    lemma_tags_lookup_at(updated, i);
    assert forall|u: TagIndex| u != t implies #[trigger] tags_contain(updated, u) == tags_contain(
        tags,
        u,
    ) by {
        if tags_contain(tags, u) {
            let k = choose|k: int| 0 <= k < tags.len() && #[trigger] tags[k].0 == u;
            assert(updated[k].0 == u);
        }
        if tags_contain(updated, u) {
            let k = choose|k: int| 0 <= k < updated.len() && #[trigger] updated[k].0 == u;
            assert(tags[k].0 == u);
        }
    }
    assert forall|u: TagIndex| u != t && tags_contain(tags, u) implies #[trigger] tags_lookup(
        updated,
        u,
    ) == tags_lookup(tags, u) by {
        let k = choose|k: int| 0 <= k < tags.len() && #[trigger] tags[k].0 == u;
        assert(k != i);
        lemma_tags_lookup_at(tags, k);
        assert(updated[k] == tags[k]);
        lemma_tags_lookup_at(updated, k);
    }
}

/// Appending a fresh key binds it and disturbs nothing else.
proof fn lemma_tags_push(tags: Seq<(TagIndex, TagLocation)>, t: TagIndex, loc: TagLocation)
    requires
        tags_distinct(tags),
        forall|k: int| 0 <= k < tags.len() ==> #[trigger] tags[k].0 != t,
    ensures
        tags_distinct(tags.push((t, loc))),
        tags_contain(tags.push((t, loc)), t),
        tags_lookup(tags.push((t, loc)), t) == loc,
        forall|u: TagIndex|
            u != t ==> #[trigger] tags_contain(tags.push((t, loc)), u) == tags_contain(tags, u),
        forall|u: TagIndex|
            u != t && tags_contain(tags, u) ==> #[trigger] tags_lookup(tags.push((t, loc)), u)
                == tags_lookup(tags, u),
{
    let pushed = tags.push((t, loc));
    let n = tags.len() as int;
    assert forall|p: int, q: int| 0 <= p < q < pushed.len() implies pushed[p].0 != pushed[q].0 by {
        assert(pushed[p] == tags[p]);
        if q < n {
            assert(pushed[q] == tags[q]);
            assert(tags[p].0 != tags[q].0);
        } else {
            assert(pushed[q].0 == t);
        }
    }
    assert(pushed[n].0 == t);
    lemma_tags_lookup_at(pushed, n);
    assert forall|u: TagIndex| u != t implies #[trigger] tags_contain(pushed, u) == tags_contain(
        tags,
        u,
    ) by {
        if tags_contain(tags, u) {
            let k = choose|k: int| 0 <= k < tags.len() && #[trigger] tags[k].0 == u;
            assert(pushed[k].0 == u);
        }
        if tags_contain(pushed, u) {
            let k = choose|k: int| 0 <= k < pushed.len() && #[trigger] pushed[k].0 == u;
            assert(k < n);
            assert(tags[k].0 == u);
        }
    }
    assert forall|u: TagIndex| u != t && tags_contain(tags, u) implies #[trigger] tags_lookup(
        pushed,
        u,
    ) == tags_lookup(tags, u) by {
        let k = choose|k: int| 0 <= k < tags.len() && #[trigger] tags[k].0 == u;
        lemma_tags_lookup_at(tags, k);
        assert(pushed[k] == tags[k]);
        lemma_tags_lookup_at(pushed, k);
    }
}

} // verus!
