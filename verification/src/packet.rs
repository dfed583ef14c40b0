//! The wire protocol's record layout.
//!
//! Results stream to downstream consumers as newline-delimited JSON, one
//! record per located object per frame. This module fixes what each record
//! holds; turning records into JSON text (floating-point formatting included)
//! is the unverified serialization layer's job.

use vstd::prelude::*;

use crate::geometry::Isometry;
use crate::locator::LocatedObjects;

verus! {

/// One wire record: when the object was located (milliseconds since the
/// epoch), which object, and its pose as a unit quaternion in `(i, j, k, w)`
/// order plus a translation vector.
#[derive(Clone, PartialEq, Eq, Debug)]
pub struct ObjectLocationPacket {
    pub time: u128,
    pub name: String,
    pub transform: Isometry,
}

/// Whether `packets` are exactly the wire records of the snapshot `store`:
/// one per located object, in snapshot order, all stamped with the
/// snapshot's timestamp.
pub open spec fn packets_match_snapshot(
    packets: Seq<ObjectLocationPacket>,
    store: LocatedObjects,
) -> bool {
    &&& packets.len() == store.name_map@.len()
    &&& forall|i: int|
        0 <= i < packets.len() ==> {
            let p = #[trigger] packets[i];
            &&& p.time == store.timestamp_ms as u128
            &&& p.name@ == store.name_map@[i].0@
            &&& p.transform == store.name_map@[i].1
        }
}

/// Build the wire packets for one snapshot.
pub fn packets_from_snapshot(store: &LocatedObjects) -> (r: Vec<ObjectLocationPacket>)
    ensures
        packets_match_snapshot(r@, *store),
{
    let n = store.name_map.len();
    let time: u128 = store.timestamp_ms as u128;
    let mut r: Vec<ObjectLocationPacket> = Vec::new();
    let mut i: usize = 0;
    while i < n
        invariant
            n == store.name_map@.len(),
            time == store.timestamp_ms as u128,
            i <= n,
            r@.len() == i,
            forall|j: int|
                0 <= j < i ==> {
                    let p = #[trigger] r@[j];
                    &&& p.time == store.timestamp_ms as u128
                    &&& p.name@ == store.name_map@[j].0@
                    &&& p.transform == store.name_map@[j].1
                },
        decreases n - i,
    {
        let name = store.name_map[i].0.clone();
        let transform = store.name_map[i].1;
        r.push(ObjectLocationPacket { time, name, transform });
        i += 1;
    }
    r
}

} // verus!
