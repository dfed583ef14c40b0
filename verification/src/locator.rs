//! The object registry and the per-frame pose-solving policy.
//!
//! A [`TaggedObjectLocator`] owns the camera model, the registered objects,
//! and the marker-to-object index, and keeps one seed-pose slot per object to
//! warm-start the external perspective-n-point solver. The numeric solve is
//! the external solver's; this module decides what to hand it (which
//! correspondences, which method, which seed) and what to record of its
//! results.

use vstd::prelude::*;

use crate::apriltag::str_eq;
use crate::camera::CameraProperty;
use crate::detection::TagDetection;
use crate::error::ConflictingTagError;
use crate::geometry::{Isometry, Vec3};
use crate::tagged_object::{
    lemma_tags_lookup_at,
    tags_contain,
    tags_lookup,
    TagIndex,
    TagLocation,
    TaggedObject,
};

verus! {

/// How long a solved pose stays eligible for reuse as a solver seed, in
/// milliseconds. A seed exactly this old is still reused (inclusive bound).
pub const OBJECT_FORGET_DURATION_MS: u64 = 1000;

/// One object's last solved pose: the solver's rotation and translation
/// vectors and the solve's timestamp in milliseconds since the epoch.
#[derive(Clone, Copy, PartialEq, Eq, Structural, Debug)]
pub struct PoseSeed {
    pub rvec: Vec3,
    pub tvec: Vec3,
    pub timestamp_ms: u64,
}

/// One binding of the marker-to-object index: which registered object owns a
/// marker, and where that marker sits on the object.
#[derive(Clone, Copy, PartialEq, Eq, Structural, Debug)]
pub struct TagMapEntry {
    pub tag: TagIndex,
    pub object_index: usize,
    pub location: TagLocation,
}

/// Whether a marker-to-object index binds each marker at most once.
pub open spec fn map_distinct(m: Seq<TagMapEntry>) -> bool {
    forall|i: int, j: int| 0 <= i < j < m.len() ==> #[trigger] m[i].tag != #[trigger] m[j].tag
}

/// Whether the index binds the marker `t`.
pub open spec fn map_contains(m: Seq<TagMapEntry>, t: TagIndex) -> bool {
    exists|i: int| 0 <= i < m.len() && #[trigger] m[i].tag == t
}

/// The position at which the index binds `t`; meaningful only under
/// [`map_contains`], and unique under [`map_distinct`].
pub open spec fn map_index_of(m: Seq<TagMapEntry>, t: TagIndex) -> int {
    choose|i: int| 0 <= i < m.len() && #[trigger] m[i].tag == t
}

/// The binding of `t`; meaningful only under [`map_contains`].
pub open spec fn map_lookup(m: Seq<TagMapEntry>, t: TagIndex) -> TagMapEntry {
    m[map_index_of(m, t)]
}

/// With distinct markers, the binding position of the marker at `k` is `k`.
pub proof fn lemma_map_lookup_at(m: Seq<TagMapEntry>, k: int)
    requires
        map_distinct(m),
        0 <= k < m.len(),
    ensures
        map_contains(m, m[k].tag),
        map_index_of(m, m[k].tag) == k,
        map_lookup(m, m[k].tag) == m[k],
{
    let t = m[k].tag;
    assert(map_contains(m, t));
    let j = map_index_of(m, t);
    assert(0 <= j < m.len() && m[j].tag == t);
    if j < k {
        assert(m[j].tag != m[k].tag);
    } else if k < j {
        assert(m[k].tag != m[j].tag);
    }
}

/// The object registry and per-frame solver front end.
///
/// The registry is append-only: indices are stable and never recycled, and
/// the object count only grows for the locator's lifetime.
pub struct TaggedObjectLocator {
    /// The camera that observes the markers.
    pub camera: CameraProperty,
    /// All registered objects, in registration order.
    pub registry: Vec<TaggedObject>,
    /// Marker-to-object index over every registered object's markers.
    pub tag_map: Vec<TagMapEntry>,
    /// Each object's last solved pose, used as the solver seed for that
    /// object's next solve; indexed like `registry`.
    pub last_location: Vec<Option<PoseSeed>>,
}

impl TaggedObjectLocator {
    /// Every binding of the index points at a real marker of a real
    /// registered object, with that marker's configured placement.
    pub open spec fn map_sound(self) -> bool {
        forall|e: int|
            0 <= e < self.tag_map@.len() ==> {
                let entry = #[trigger] self.tag_map@[e];
                &&& entry.object_index < self.registry@.len()
                &&& tags_contain(self.registry@[entry.object_index as int].tags@, entry.tag)
                &&& tags_lookup(self.registry@[entry.object_index as int].tags@, entry.tag)
                    == entry.location
            }
    }

    /// Every marker of every registered object is bound by the index, to its
    /// own object and with its configured placement.
    pub open spec fn map_complete(self) -> bool {
        forall|i: int, k: int|
            0 <= i < self.registry@.len() && 0 <= k < self.registry@[i].tags@.len() ==> {
                let t = (#[trigger] self.registry@[i].tags@[k]).0;
                &&& map_contains(self.tag_map@, t)
                &&& map_lookup(self.tag_map@, t).object_index == i
                &&& map_lookup(self.tag_map@, t).location == self.registry@[i].tags@[k].1
            }
    }

    /// The registry invariant: one seed slot per object, well-formed objects
    /// with distinct names, and a marker-to-object index that binds exactly
    /// the registered objects' markers, each at most once.
    pub open spec fn wf(self) -> bool {
        &&& self.last_location@.len() == self.registry@.len()
        &&& forall|i: int| 0 <= i < self.registry@.len() ==> (#[trigger] self.registry@[i]).wf()
        &&& forall|i: int, j: int|
            0 <= i < j < self.registry@.len() ==> self.registry@[i].name@
                != self.registry@[j].name@
        &&& map_distinct(self.tag_map@)
        &&& self.map_sound()
        &&& self.map_complete()
    }

    /// An empty registry in front of `camera`.
    pub fn new(camera: CameraProperty) -> (r: TaggedObjectLocator)
        ensures
            r.camera == camera,
            r.registry@.len() == 0,
            r.tag_map@.len() == 0,
            r.last_location@.len() == 0,
            r.wf(),
    {
        TaggedObjectLocator {
            camera,
            registry: Vec::new(),
            tag_map: Vec::new(),
            last_location: Vec::new(),
        }
    }

    /// The camera this locator solves against.
    pub fn camera(&self) -> (r: &CameraProperty)
        ensures
            r == self.camera,
    {
        &self.camera
    }

    /// Whether some registered object already carries the name of `obj`.
    pub open spec fn spec_conflicting_name(self, obj: TaggedObject) -> bool {
        exists|i: int|
            0 <= i < self.registry@.len() && (#[trigger] self.registry@[i]).name@ == obj.name@
    }

    /// Whether the `k`th marker of `obj` is already bound by the index.
    pub open spec fn spec_conflicting_tag_at(self, obj: TaggedObject, k: int) -> bool {
        0 <= k < obj.tags@.len() && map_contains(self.tag_map@, obj.tags@[k].0)
    }

    /// Whether some marker of `obj` is already bound by the index.
    pub open spec fn spec_has_conflicting_tag(self, obj: TaggedObject) -> bool {
        exists|k: int| self.spec_conflicting_tag_at(obj, k)
    }

    /// What [`TaggedObjectLocator::add`] reports when it refuses `obj`: a
    /// name conflict names the contested name twice; a marker conflict names
    /// the first contested marker of `obj`, its current owner, and `obj`.
    pub open spec fn spec_add_error(self, obj: TaggedObject, e: ConflictingTagError) -> bool {
        if self.spec_conflicting_name(obj) {
            &&& e.tag is None
            &&& e.object1@ == obj.name@
            &&& e.object2@ == obj.name@
        } else {
            exists|k: int|
                {
                    &&& #[trigger] self.spec_conflicting_tag_at(obj, k)
                    &&& forall|j: int|
                        0 <= j < k ==> !map_contains(self.tag_map@, (#[trigger] obj.tags@[j]).0)
                    &&& e.tag == Some(obj.tags@[k].0)
                    &&& e.object1@ == self.registry@[map_lookup(
                        self.tag_map@,
                        obj.tags@[k].0,
                    ).object_index as int].name@
                    &&& e.object2@ == obj.name@
                }
        }
    }

    /// The state after `obj` is registered: the object appended, an empty
    /// seed slot appended, and every marker of `obj` bound to the new index.
    pub open spec fn spec_added(self, obj: TaggedObject, post: TaggedObjectLocator) -> bool {
        &&& post.camera == self.camera
        &&& post.registry@ == self.registry@.push(obj)
        &&& post.last_location@ == self.last_location@.push(None::<PoseSeed>)
        &&& post.tag_map@.len() == self.tag_map@.len() + obj.tags@.len()
        &&& forall|j: int| 0 <= j < self.tag_map@.len() ==> post.tag_map@[j] == self.tag_map@[j]
        &&& forall|j: int|
            0 <= j < obj.tags@.len() ==> {
                let entry = post.tag_map@[self.tag_map@.len() + j];
                &&& entry.tag == (#[trigger] obj.tags@[j]).0
                &&& entry.object_index == self.registry@.len()
                &&& entry.location == obj.tags@[j].1
            }
    }

    /// The position in the index binding `t`, if any.
    fn find_entry(&self, t: TagIndex) -> (r: Option<usize>)
        ensures
            match r {
                Some(i) => i < self.tag_map@.len() && self.tag_map@[i as int].tag == t,
                None => !map_contains(self.tag_map@, t),
            },
    {
        let n = self.tag_map.len();
        let mut i: usize = 0;
        while i < n
            invariant
                n == self.tag_map@.len(),
                i <= n,
                forall|j: int| 0 <= j < i ==> #[trigger] self.tag_map@[j].tag != t,
            decreases n - i,
        {
            if self.tag_map[i].tag == t {
                return Some(i);
            }
            i += 1;
        }
        None
    }

    /// Register a tagged object.
    ///
    /// Registration is all-or-nothing: if the object's name or any of its
    /// markers is already owned, the call fails with a conflict error and the
    /// locator is left exactly as it was. On success the object is appended
    /// to the registry, all its markers are bound to the new registry index,
    /// and its seed slot starts empty.
    pub fn add(&mut self, tagobj: TaggedObject) -> (r: Result<(), ConflictingTagError>)
        requires
            old(self).wf(),
            tagobj.wf(),
        ensures
            final(self).wf(),
            match r {
                Ok(_) => {
                    &&& !old(self).spec_conflicting_name(tagobj)
                    &&& !old(self).spec_has_conflicting_tag(tagobj)
                    &&& old(self).spec_added(tagobj, *final(self))
                },
                Err(e) => {
                    &&& *final(self) == *old(self)
                    &&& old(self).spec_conflicting_name(tagobj) || old(
                        self,
                    ).spec_has_conflicting_tag(tagobj)
                    &&& old(self).spec_add_error(tagobj, e)
                },
            },
    {
        // refuse a name an earlier registration owns
        let n = self.registry.len();
        let mut i: usize = 0;
        while i < n
            invariant
                *self == *old(self),
                old(self).wf(),
                n == self.registry@.len(),
                i <= n,
                forall|j: int| 0 <= j < i ==> (#[trigger] self.registry@[j]).name@ != tagobj.name@,
            decreases n - i,
        {
            if str_eq(self.registry[i].name.as_str(), tagobj.name.as_str()) {
                return Err(ConflictingTagError::new_name(tagobj.name.as_str()));
            }
            i += 1;
        }
        // refuse a marker an earlier registration owns
        let m = tagobj.tags.len();
        let mut k: usize = 0;
        while k < m
            invariant
                *self == *old(self),
                old(self).wf(),
                m == tagobj.tags@.len(),
                k <= m,
                forall|j: int|
                    0 <= j < k ==> !map_contains(self.tag_map@, (#[trigger] tagobj.tags@[j]).0),
                forall|j: int| 0 <= j < n ==> (#[trigger] self.registry@[j]).name@ != tagobj.name@,
                n == self.registry@.len(),
            decreases m - k,
        {
            let t = tagobj.tags[k].0;
            if let Some(e) = self.find_entry(t) {
                let owner = self.tag_map[e].object_index;
                proof {
                    lemma_map_lookup_at(self.tag_map@, e as int);
                    assert(self.spec_conflicting_tag_at(tagobj, k as int));
                }
                let owner_name = self.registry[owner].name.clone();
                return Err(ConflictingTagError::new(t, owner_name, tagobj.name.clone()));
            }
            k += 1;
        }
        // no conflicts: register
        let new_index = self.registry.len();
        let ghost pre = *old(self);
        let mut k: usize = 0;
        while k < m
            invariant
                self.camera == pre.camera,
                self.registry == pre.registry,
                self.last_location == pre.last_location,
                m == tagobj.tags@.len(),
                k <= m,
                new_index == pre.registry@.len(),
                self.tag_map@.len() == pre.tag_map@.len() + k,
                forall|j: int| 0 <= j < pre.tag_map@.len() ==> self.tag_map@[j] == pre.tag_map@[j],
                forall|j: int|
                    0 <= j < k ==> self.tag_map@[pre.tag_map@.len() + j] == (TagMapEntry {
                        tag: (#[trigger] tagobj.tags@[j]).0,
                        object_index: new_index,
                        location: tagobj.tags@[j].1,
                    }),
            decreases m - k,
        {
            let t = tagobj.tags[k].0;
            let loc = tagobj.tags[k].1;
            self.tag_map.push(TagMapEntry { tag: t, object_index: new_index, location: loc });
            k += 1;
        }
        self.last_location.push(None);
        let ghost obj = tagobj;
        self.registry.push(tagobj);
        proof {
            assert(pre.spec_added(obj, *self));
            lemma_add_preserves_wf(pre, *self, obj);
        }
        Ok(())
    }

    /// Every registered object's name with its marker placements, in
    /// registration order.
    pub fn get_object_map(&self) -> (r: Vec<(String, Vec<(TagIndex, TagLocation)>)>)
        ensures
            r@.len() == self.registry@.len(),
            forall|i: int|
                0 <= i < r@.len() ==> (#[trigger] r@[i]).0@ == self.registry@[i].name@ && r@[i].1@
                    == self.registry@[i].tags@,
    {
        let n = self.registry.len();
        let mut r: Vec<(String, Vec<(TagIndex, TagLocation)>)> = Vec::new();
        let mut i: usize = 0;
        while i < n
            invariant
                n == self.registry@.len(),
                i <= n,
                r@.len() == i,
                forall|j: int|
                    0 <= j < i ==> (#[trigger] r@[j]).0@ == self.registry@[j].name@ && r@[j].1@
                        == self.registry@[j].tags@,
            decreases n - i,
        {
            let name = self.registry[i].name.clone();
            let count = self.registry[i].tags.len();
            let mut tags: Vec<(TagIndex, TagLocation)> = Vec::new();
            let mut j: usize = 0;
            while j < count
                invariant
                    i < n,
                    n == self.registry@.len(),
                    count == self.registry@[i as int].tags@.len(),
                    j <= count,
                    tags@.len() == j,
                    forall|p: int| 0 <= p < j ==> tags@[p] == self.registry@[i as int].tags@[p],
                decreases count - j,
            {
                tags.push(self.registry[i].tags[j]);
                j += 1;
            }
            proof {
                assert(tags@ =~= self.registry@[i as int].tags@);
            }
            r.push((name, tags));
            i += 1;
        }
        r
    }

    /// The name of the registered object at `object_index`.
    pub fn object_name(&self, object_index: usize) -> (r: &String)
        requires
            object_index < self.registry@.len(),
        ensures
            *r == self.registry@[object_index as int].name,
    {
        &self.registry[object_index].name
    }

    /// Partition one frame's detections by owning object.
    ///
    /// Each detection whose marker the index binds joins its owner's group,
    /// paired with the marker's placement; detections of unknown markers are
    /// silently dropped. Groups come out in ascending registry order, frame
    /// order preserved within each, and only for objects with at least one
    /// matched detection.
    pub fn classify_detections(&self, detections: &Vec<TagDetection>) -> (r: Vec<DetectionGroup>)
        requires
            self.wf(),
        ensures
            forall|a: int|
                0 <= a < r@.len() ==> {
                    let g = #[trigger] r@[a];
                    &&& g.object_index < self.registry@.len()
                    &&& g.detections@ == spec_group(
                        self.tag_map@,
                        detections@,
                        g.object_index as int,
                    )
                    &&& g.detections@.len() > 0
                },
            forall|a: int, b: int|
                0 <= a < b < r@.len() ==> r@[a].object_index < r@[b].object_index,
            forall|i: int|
                0 <= i < self.registry@.len() && spec_group(self.tag_map@, detections@, i).len()
                    > 0 ==> exists|a: int| 0 <= a < r@.len() && (#[trigger] r@[a]).object_index == i,
    {
        let n = self.registry.len();
        let m = detections.len();
        let mut r: Vec<DetectionGroup> = Vec::new();
        let mut i: usize = 0;
        while i < n
            invariant
                map_distinct(self.tag_map@),
                n == self.registry@.len(),
                m == detections@.len(),
                i <= n,
                forall|a: int|
                    0 <= a < r@.len() ==> {
                        let g = #[trigger] r@[a];
                        &&& g.object_index < i
                        &&& g.detections@ == spec_group(
                            self.tag_map@,
                            detections@,
                            g.object_index as int,
                        )
                        &&& g.detections@.len() > 0
                    },
                forall|a: int, b: int|
                    0 <= a < b < r@.len() ==> r@[a].object_index < r@[b].object_index,
                forall|ii: int|
                    0 <= ii < i && spec_group(self.tag_map@, detections@, ii).len() > 0
                        ==> exists|a: int|
                        0 <= a < r@.len() && (#[trigger] r@[a]).object_index == ii,
            decreases n - i,
        {
            let mut group: Vec<(TagDetection, TagLocation)> = Vec::new();
            let mut k: usize = 0;
            while k < m
                invariant
                    map_distinct(self.tag_map@),
                    m == detections@.len(),
                    k <= m,
                    i < n,
                    n == self.registry@.len(),
                    group@ == spec_group(self.tag_map@, detections@.take(k as int), i as int),
                decreases m - k,
            {
                let d = detections[k];
                let t = d.tag_index();
                proof {
                    assert(detections@.take(k + 1 as int).drop_last() =~= detections@.take(
                        k as int,
                    ));
                    assert(detections@.take(k + 1 as int).last() == detections@[k as int]);
                }
                if let Some(e) = self.find_entry(t) {
                    proof {
                        lemma_map_lookup_at(self.tag_map@, e as int);
                    }
                    if self.tag_map[e].object_index == i {
                        group.push((d, self.tag_map[e].location));
                    }
                }
                k += 1;
            }
            proof {
                assert(detections@.take(m as int) =~= detections@);
                assert(group@ == spec_group(self.tag_map@, detections@, i as int));
            }
            let ghost r_old = r@;
            if group.len() > 0 {
                r.push(DetectionGroup { object_index: i, detections: group });
            }
            proof {
                assert forall|ii: int|
                    0 <= ii < i + 1 && spec_group(self.tag_map@, detections@, ii).len()
                        > 0 implies exists|a: int|
                    0 <= a < r@.len() && (#[trigger] r@[a]).object_index == ii by {
                    if ii < i {
                        let a = choose|a: int|
                            0 <= a < r_old.len() && (#[trigger] r_old[a]).object_index == ii;
                        assert(r@[a].object_index == ii);
                    } else {
                        assert(r@[r@.len() - 1].object_index == ii);
                    }
                }
            }
            i += 1;
        }
        r
    }

    /// The seed slot a solve would consult: the named object's slot, or none
    /// for a one-shot query.
    pub open spec fn spec_seed_slot(self, object_index: Option<usize>) -> Option<PoseSeed> {
        match object_index {
            Some(i) => self.last_location@[i as int],
            None => None,
        }
    }

    /// The plan [`TaggedObjectLocator::plan_solve`] decides on: the stored
    /// seed is reused exactly when its age is within the forget window
    /// (inclusive); a seed from the future is a clock error; one visible
    /// marker selects the square-specialized method.
    pub open spec fn spec_plan(
        self,
        detection_count: usize,
        object_index: Option<usize>,
        timestamp_ms: u64,
    ) -> Result<SolvePlan, ClockError> {
        match self.spec_seed_slot(object_index) {
            Some(seed) => {
                if seed.timestamp_ms > timestamp_ms {
                    Err(ClockError { seed_timestamp_ms: seed.timestamp_ms, timestamp_ms })
                } else if timestamp_ms - seed.timestamp_ms <= OBJECT_FORGET_DURATION_MS {
                    Ok(SolvePlan { use_square: detection_count == 1, seed: Some(seed) })
                } else {
                    Ok(SolvePlan { use_square: detection_count == 1, seed: None })
                }
            },
            None => Ok(SolvePlan { use_square: detection_count == 1, seed: None }),
        }
    }

    /// Decide how one object's pose is solved this frame.
    ///
    /// `detection_count` is the size of the object's detection group;
    /// `object_index` is the object's registry index, or `None` for a
    /// one-shot query that must not touch seed state; `timestamp_ms` is the
    /// frame's capture time.
    pub fn plan_solve(
        &self,
        detection_count: usize,
        object_index: Option<usize>,
        timestamp_ms: u64,
    ) -> (r: Result<SolvePlan, ClockError>)
        requires
            object_index matches Some(i) ==> i < self.last_location@.len(),
        ensures
            r == self.spec_plan(detection_count, object_index, timestamp_ms),
    {
        let use_square = detection_count == 1;
        let slot = match object_index {
            Some(i) => self.last_location[i],
            None => None,
        };
        match slot {
            Some(seed) => {
                if seed.timestamp_ms > timestamp_ms {
                    Err(ClockError { seed_timestamp_ms: seed.timestamp_ms, timestamp_ms })
                } else if timestamp_ms - seed.timestamp_ms <= OBJECT_FORGET_DURATION_MS {
                    Ok(SolvePlan { use_square, seed: Some(seed) })
                } else {
                    Ok(SolvePlan { use_square, seed: None })
                }
            },
            None => Ok(SolvePlan { use_square, seed: None }),
        }
    }

    /// Record a successful solve's rotation and translation vectors.
    ///
    /// The seed slot is overwritten only for a registered object solved on
    /// the general iterative path; one-shot queries and square-path solves
    /// leave all seed state untouched.
    pub fn record_solve(
        &mut self,
        object_index: Option<usize>,
        used_square_path: bool,
        rvec: Vec3,
        tvec: Vec3,
        timestamp_ms: u64,
    )
        requires
            old(self).wf(),
            object_index matches Some(i) ==> i < old(self).last_location@.len(),
        ensures
            final(self).wf(),
            final(self).camera == old(self).camera,
            final(self).registry == old(self).registry,
            final(self).tag_map == old(self).tag_map,
            object_index matches Some(i) ==> {
                &&& !used_square_path ==> final(self).last_location@ == old(
                    self,
                ).last_location@.update(i as int, Some(PoseSeed { rvec, tvec, timestamp_ms }))
                &&& used_square_path ==> final(self).last_location@ == old(self).last_location@
            },
            object_index is None ==> final(self).last_location@ == old(self).last_location@,
    {
        if let Some(i) = object_index {
            if !used_square_path {
                self.last_location[i] = Some(PoseSeed { rvec, tvec, timestamp_ms });
            }
        }
    }
}

/// Registration conflict. When an already-registered object and a candidate
/// both claim the marker `t`, registering the candidate must fail — and by
/// [`TaggedObjectLocator::add`]'s contract the failed call reports a
/// conflict error and leaves the locator exactly as it was, with no partial
/// registration.
pub proof fn lemma_shared_marker_conflicts(
    loc: TaggedObjectLocator,
    i: int,
    obj: TaggedObject,
    t: TagIndex,
)
    requires
        loc.wf(),
        0 <= i < loc.registry@.len(),
        tags_contain(loc.registry@[i].tags@, t),
        tags_contain(obj.tags@, t),
    ensures
        loc.spec_has_conflicting_tag(obj),
{
    let k = choose|k: int|
        0 <= k < loc.registry@[i].tags@.len() && #[trigger] loc.registry@[i].tags@[k].0 == t;
    assert(map_contains(loc.tag_map@, t));
    let j = choose|j: int| 0 <= j < obj.tags@.len() && #[trigger] obj.tags@[j].0 == t;
    assert(loc.spec_conflicting_tag_at(obj, j));
}

/// Seed staleness. When a registered object's slot holds a previous solution
/// whose age at the new solve is past the forget window, the plan carries no
/// seed: the solver runs cold rather than being warm-started with stale
/// state. At or under the window (the bound is inclusive) the stored seed is
/// reused unchanged.
pub proof fn lemma_seed_forget_window(
    loc: TaggedObjectLocator,
    detection_count: usize,
    i: usize,
    timestamp_ms: u64,
)
    requires
        i < loc.last_location@.len(),
        loc.last_location@[i as int] matches Some(seed) && seed.timestamp_ms <= timestamp_ms,
    ensures
        loc.spec_plan(detection_count, Some(i), timestamp_ms) matches Ok(plan) && {
            let seed = loc.last_location@[i as int]->Some_0;
            &&& timestamp_ms - seed.timestamp_ms > OBJECT_FORGET_DURATION_MS ==> plan.seed is None
            &&& timestamp_ms - seed.timestamp_ms <= OBJECT_FORGET_DURATION_MS ==> plan.seed
                == Some(seed)
        },
{
}

/// The detections of one frame that belong to one registered object, paired
/// with their markers' placements on that object.
#[derive(Clone, PartialEq, Eq, Debug)]
pub struct DetectionGroup {
    /// The owning object's index in the registry.
    pub object_index: usize,
    /// The object's matched detections, in frame order.
    pub detections: Vec<(TagDetection, TagLocation)>,
}

/// The detections among `dets` whose marker the index `m` binds to object
/// `i`, in order, each paired with its marker's placement.
pub open spec fn spec_group(m: Seq<TagMapEntry>, dets: Seq<TagDetection>, i: int) -> Seq<
    (TagDetection, TagLocation),
>
    decreases dets.len(),
{
    if dets.len() == 0 {
        Seq::empty()
    } else {
        let prefix = spec_group(m, dets.drop_last(), i);
        let d = dets.last();
        let t = d.spec_tag_index();
        if map_contains(m, t) && map_lookup(m, t).object_index == i {
            prefix.push((d, map_lookup(m, t).location))
        } else {
            prefix
        }
    }
}

/// Raised when a stored seed's timestamp lies in the future of the current
/// solve's timestamp: the clock went backwards between frames, so the seed's
/// age is undefined.
#[derive(Clone, Copy, PartialEq, Eq, Structural, Debug)]
pub struct ClockError {
    pub seed_timestamp_ms: u64,
    pub timestamp_ms: u64,
}

/// What to hand the external perspective-n-point solver for one object.
#[derive(Clone, Copy, PartialEq, Eq, Debug)]
pub struct SolvePlan {
    /// Solve with the square-specialized closed-form method (exactly one
    /// marker visible) instead of the general iterative one. The closed-form
    /// method takes no seed; a fresh seed is reported regardless and the
    /// caller ignores it on this path, keeping that long-standing behavior an
    /// explicit choice of the solving layer.
    pub use_square: bool,
    /// The previous solution to warm-start the iterative solve, present
    /// exactly when the consulted slot holds one within the forget window.
    pub seed: Option<PoseSeed>,
}

/// A timestamped snapshot of the objects located in one frame: the frame's
/// timestamp in milliseconds since the epoch, and one solved pose per located
/// object, keyed by object name.
///
/// Created once at pipeline start and rewritten in place each solve cycle by
/// the locate stage; read by the publish stages.
#[derive(Clone, PartialEq, Eq, Debug)]
pub struct LocatedObjects {
    pub timestamp_ms: u64,
    pub name_map: Vec<(String, Isometry)>,
}

impl LocatedObjects {
    /// An empty snapshot stamped `now_ms`.
    pub fn new(now_ms: u64) -> (r: LocatedObjects)
        ensures
            r.timestamp_ms == now_ms,
            r.name_map@.len() == 0,
    {
        LocatedObjects { timestamp_ms: now_ms, name_map: Vec::new() }
    }

    /// When the snapshot's frame was captured.
    pub fn timestamp(&self) -> (r: u64)
        ensures
            r == self.timestamp_ms,
    {
        self.timestamp_ms
    }

    /// The located objects' poses, keyed by object name.
    pub fn name_map(&self) -> (r: &Vec<(String, Isometry)>)
        ensures
            r == &self.name_map,
    {
        &self.name_map
    }

    /// Start the snapshot of a new frame: stamp it and forget the previous
    /// frame's poses. Clearing even when nothing will be inserted is what
    /// lets subscribers observe "no objects visible" as a fresh timestamp.
    pub fn begin_frame(&mut self, timestamp_ms: u64)
        ensures
            final(self).timestamp_ms == timestamp_ms,
            final(self).name_map@.len() == 0,
    {
        self.timestamp_ms = timestamp_ms;
        self.name_map.clear();
    }

    /// Record one located object's pose in the current frame's snapshot.
    pub fn insert(&mut self, name: String, location: Isometry)
        ensures
            final(self).timestamp_ms == old(self).timestamp_ms,
            final(self).name_map@ == old(self).name_map@.push((name, location)),
    {
        self.name_map.push((name, location));
    }
}

/// After a fresh registration, the index still binds each marker at most
/// once.
proof fn lemma_add_map_distinct(pre: TaggedObjectLocator, post: TaggedObjectLocator, obj: TaggedObject)
    requires
        map_distinct(pre.tag_map@),
        obj.wf(),
        forall|j: int| 0 <= j < obj.tags@.len() ==> !map_contains(pre.tag_map@, (#[trigger] obj.tags@[j]).0),
        pre.spec_added(obj, post),
    ensures
        map_distinct(post.tag_map@),
{
    let old_len = pre.tag_map@.len() as int;
    assert forall|p: int, q: int| 0 <= p < q < post.tag_map@.len() implies #[trigger] post.tag_map@[p].tag
        != #[trigger] post.tag_map@[q].tag by {
        if q < old_len {
            assert(post.tag_map@[p] == pre.tag_map@[p]);
            assert(post.tag_map@[q] == pre.tag_map@[q]);
        } else if p < old_len {
            let j = q - old_len;
            assert(post.tag_map@[q].tag == obj.tags@[j].0);
            assert(post.tag_map@[p] == pre.tag_map@[p]);
            if post.tag_map@[p].tag == obj.tags@[j].0 {
                assert(map_contains(pre.tag_map@, obj.tags@[j].0));
            }
        } else {
            let jp = p - old_len;
            let jq = q - old_len;
            assert(post.tag_map@[p].tag == obj.tags@[jp].0);
            assert(post.tag_map@[q].tag == obj.tags@[jq].0);
            assert(obj.tags@[jp].0 != obj.tags@[jq].0);
        }
    }
}

/// After a fresh registration, every binding still points at a real marker
/// of a real object.
proof fn lemma_add_map_sound(pre: TaggedObjectLocator, post: TaggedObjectLocator, obj: TaggedObject)
    requires
        pre.map_sound(),
        obj.wf(),
        pre.spec_added(obj, post),
    ensures
        post.map_sound(),
{
    let old_len = pre.tag_map@.len() as int;
    let reg_len = pre.registry@.len() as int;
    assert forall|e: int| 0 <= e < post.tag_map@.len() implies {
        let entry = #[trigger] post.tag_map@[e];
        &&& entry.object_index < post.registry@.len()
        &&& tags_contain(post.registry@[entry.object_index as int].tags@, entry.tag)
        &&& tags_lookup(post.registry@[entry.object_index as int].tags@, entry.tag) == entry.location
    } by {
        if e < old_len {
            assert(post.tag_map@[e] == pre.tag_map@[e]);
            let entry = pre.tag_map@[e];
            assert(entry.object_index < pre.registry@.len());
            assert(post.registry@[entry.object_index as int] == pre.registry@[entry.object_index as int]);
        } else {
            let j = e - old_len;
            let entry = post.tag_map@[e];
            assert(entry.tag == obj.tags@[j].0 && entry.object_index == reg_len && entry.location
                == obj.tags@[j].1);
            assert(post.registry@[reg_len] == obj);
            lemma_tags_lookup_at(obj.tags@, j);
        }
    }
}

/// After a fresh registration, every marker of every object is still bound to
/// its own object.
proof fn lemma_add_map_complete(pre: TaggedObjectLocator, post: TaggedObjectLocator, obj: TaggedObject)
    requires
        pre.map_complete(),
        obj.wf(),
        pre.spec_added(obj, post),
        map_distinct(post.tag_map@),
    ensures
        post.map_complete(),
{
    let old_len = pre.tag_map@.len() as int;
    let reg_len = pre.registry@.len() as int;
    assert forall|i: int, k: int|
        0 <= i < post.registry@.len() && 0 <= k < post.registry@[i].tags@.len() implies {
        let t = (#[trigger] post.registry@[i].tags@[k]).0;
        &&& map_contains(post.tag_map@, t)
        &&& map_lookup(post.tag_map@, t).object_index == i
        &&& map_lookup(post.tag_map@, t).location == post.registry@[i].tags@[k].1
    } by {
        if i < reg_len {
            assert(post.registry@[i] == pre.registry@[i]);
            let t = pre.registry@[i].tags@[k].0;
            assert(map_contains(pre.tag_map@, t) && map_lookup(pre.tag_map@, t).object_index == i
                && map_lookup(pre.tag_map@, t).location == pre.registry@[i].tags@[k].1);
            let e = map_index_of(pre.tag_map@, t);
            assert(0 <= e < old_len && pre.tag_map@[e].tag == t);
            assert(post.tag_map@[e] == pre.tag_map@[e]);
            lemma_map_lookup_at(post.tag_map@, e);
        } else {
            assert(post.registry@[i] == obj);
            let t = obj.tags@[k].0;
            assert(post.tag_map@[old_len + k].tag == t);
            lemma_map_lookup_at(post.tag_map@, old_len + k);
        }
    }
}

/// Registering an object whose name and markers are all fresh preserves the
/// registry invariant.
proof fn lemma_add_preserves_wf(pre: TaggedObjectLocator, post: TaggedObjectLocator, obj: TaggedObject)
    requires
        pre.wf(),
        obj.wf(),
        forall|j: int| 0 <= j < obj.tags@.len() ==> !map_contains(pre.tag_map@, (#[trigger] obj.tags@[j]).0),
        forall|i: int| 0 <= i < pre.registry@.len() ==> (#[trigger] pre.registry@[i]).name@ != obj.name@,
        pre.spec_added(obj, post),
    ensures
        post.wf(),
{
    let reg_len = pre.registry@.len() as int;
    assert(post.registry@.len() == reg_len + 1);
    assert(post.registry@[reg_len] == obj);
    assert forall|i: int| 0 <= i < post.registry@.len() implies (#[trigger] post.registry@[i]).wf() by {
        if i < reg_len {
            assert(post.registry@[i] == pre.registry@[i]);
        }
    }
    assert forall|i: int, j: int| 0 <= i < j < post.registry@.len() implies post.registry@[i].name@
        != post.registry@[j].name@ by {
        assert(post.registry@[i] == pre.registry@[i]);
        if j < reg_len {
            assert(post.registry@[j] == pre.registry@[j]);
        }
    }
    lemma_add_map_distinct(pre, post, obj);
    lemma_add_map_sound(pre, post, obj);
    lemma_add_map_complete(pre, post, obj);
}

} // verus!
