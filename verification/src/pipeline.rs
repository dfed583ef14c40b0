//! The decisions of the capture → locate → publish pipeline.
//!
//! The pipeline's stages run as worker threads around a single-slot frame
//! buffer and the shared result store; the blocking, locking and waking is
//! the runner's (unverified) plumbing. What each stage decides on wake-up —
//! whether a frame is genuinely new, whether the store holds an update worth
//! publishing — lives here, as state machines over timestamps.

use vstd::prelude::*;

use crate::locator::LocatedObjects;
use crate::packet::{packets_from_snapshot, packets_match_snapshot, ObjectLocationPacket};

verus! {

/// The locate stage's guard against spurious wake-ups: the capture timestamp
/// of the last frame it accepted.
#[derive(Clone, Copy, PartialEq, Eq, Structural, Debug)]
pub struct FrameGate {
    pub last_timestamp_ms: u64,
}

impl FrameGate {
    /// A gate that has accepted no frame yet (the epoch's timestamp).
    pub fn new() -> (r: FrameGate)
        ensures
            r.last_timestamp_ms == 0,
    {
        FrameGate { last_timestamp_ms: 0 }
    }

    /// On wake-up, accept the shared buffer's frame only if its capture
    /// timestamp differs from the last accepted one; a wake-up with an
    /// unchanged timestamp is spurious and the frame is rejected.
    pub fn accept(&mut self, frame_timestamp_ms: u64) -> (r: bool)
        ensures
            r == (frame_timestamp_ms != old(self).last_timestamp_ms),
            r ==> final(self).last_timestamp_ms == frame_timestamp_ms,
            !r ==> *final(self) == *old(self),
    {
        if frame_timestamp_ms != self.last_timestamp_ms {
            self.last_timestamp_ms = frame_timestamp_ms;
            true
        } else {
            false
        }
    }
}

/// One publisher's view of the shared result store: the timestamp of the
/// snapshot it last published.
#[derive(Clone, Copy, PartialEq, Eq, Structural, Debug)]
pub struct PublishGate {
    pub last_timestamp_ms: u64,
}

impl PublishGate {
    /// A publisher that considers `now_ms` already published, so only a
    /// later snapshot wakes it.
    pub fn new(now_ms: u64) -> (r: PublishGate)
        ensures
            r.last_timestamp_ms == now_ms,
    {
        PublishGate { last_timestamp_ms: now_ms }
    }

    /// The publisher's wait predicate: keep waiting while the snapshot's
    /// timestamp is unchanged or it holds no located objects.
    pub open spec fn spec_should_wait(self, store: LocatedObjects) -> bool {
        store.timestamp_ms == self.last_timestamp_ms || store.name_map@.len() == 0
    }

    /// The publisher's wait predicate, re-checked on every wake-up of the
    /// store's condition variable to reject stale and spurious wakes.
    pub fn should_wait(&self, store: &LocatedObjects) -> (r: bool)
        ensures
            r == self.spec_should_wait(*store),
    {
        store.timestamp() == self.last_timestamp_ms || store.name_map().len() == 0
    }

    /// On a genuine update, build the snapshot's wire packets and remember
    /// its timestamp as published.
    pub fn take_update(&mut self, store: &LocatedObjects) -> (r: Vec<ObjectLocationPacket>)
        requires
            !old(self).spec_should_wait(*store),
        ensures
            final(self).last_timestamp_ms == store.timestamp_ms,
            store.timestamp_ms != old(self).last_timestamp_ms,
            packets_match_snapshot(r@, *store),
    {
        self.last_timestamp_ms = store.timestamp();
        packets_from_snapshot(store)
    }
}

/// Publish staleness. A publisher only takes a snapshot whose timestamp
/// differs from the one it last published, and then remembers that
/// timestamp; so of two successively published snapshots the second carries
/// a different timestamp, and no two published batches claim one timestamp
/// with different content. Loss of track is still observable: the locate
/// stage stamps the store afresh even when it located nothing (see
/// [`LocatedObjects::begin_frame`]), so an emptied store shows up as a new
/// timestamp, on which the publisher waits rather than re-sending old poses.
pub proof fn lemma_published_timestamps_distinct(
    g0: PublishGate,
    s1: LocatedObjects,
    g1: PublishGate,
    s2: LocatedObjects,
    p1: Seq<ObjectLocationPacket>,
    p2: Seq<ObjectLocationPacket>,
)
    requires
        !g0.spec_should_wait(s1),
        g1.last_timestamp_ms == s1.timestamp_ms,
        !g1.spec_should_wait(s2),
        packets_match_snapshot(p1, s1),
        packets_match_snapshot(p2, s2),
    ensures
        s2.timestamp_ms != s1.timestamp_ms,
        forall|i: int, j: int|
            0 <= i < p1.len() && 0 <= j < p2.len() ==> (#[trigger] p1[i]).time != (
            #[trigger] p2[j]).time,
{
}

} // verus!
