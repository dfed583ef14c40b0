//! The frame gate, the result store, the publish gate and the wire packets.

use tag_locator::geometry::{Isometry, Quaternion, Scalar, Vec3};
use tag_locator::locator::LocatedObjects;
use tag_locator::packet::packets_from_snapshot;
use tag_locator::pipeline::{FrameGate, PublishGate};

fn scalar(x: f64) -> Scalar {
    Scalar { bits: x.to_bits() }
}

fn identity_pose() -> Isometry {
    Isometry {
        rotation: Quaternion {
            i: scalar(0.0),
            j: scalar(0.0),
            k: scalar(0.0),
            w: scalar(1.0),
        },
        translation: Vec3 {
            x: scalar(0.0),
            y: scalar(0.0),
            z: scalar(0.0),
        },
    }
}

fn pose_at(z: f64) -> Isometry {
    Isometry {
        rotation: Quaternion {
            i: scalar(0.0),
            j: scalar(0.0),
            k: scalar(0.0),
            w: scalar(1.0),
        },
        translation: Vec3 {
            x: scalar(0.0),
            y: scalar(0.0),
            z: scalar(z),
        },
    }
}

#[test]
fn frame_gate_rejects_repeated_timestamp() {
    let mut gate = FrameGate::new();
    assert!(gate.accept(100));
    // a spurious wake-up re-reads the same frame
    assert!(!gate.accept(100));
    assert!(gate.accept(133));
    assert!(!gate.accept(133));
}

#[test]
fn store_update_replaces_previous_frame() {
    let mut store = LocatedObjects::new(0);
    store.begin_frame(100);
    store.insert("a".to_string(), identity_pose());
    store.insert("b".to_string(), pose_at(2.0));
    assert_eq!(store.timestamp(), 100);
    assert_eq!(store.name_map().len(), 2);

    // the next frame saw nothing: the store is freshly stamped and empty,
    // so loss of track is observable
    store.begin_frame(133);
    assert_eq!(store.timestamp(), 133);
    assert!(store.name_map().is_empty());
}

#[test]
fn publisher_waits_on_unchanged_timestamp_and_empty_map() {
    let mut store = LocatedObjects::new(0);
    store.begin_frame(100);
    store.insert("a".to_string(), identity_pose());

    let mut gate = PublishGate::new(50);
    assert!(!gate.should_wait(&store));
    let packets = gate.take_update(&store);
    assert_eq!(packets.len(), 1);

    // same snapshot again: wait
    assert!(gate.should_wait(&store));

    // a new frame with no objects: wait (but the timestamp moved, so the
    // update was observable)
    store.begin_frame(133);
    assert!(gate.should_wait(&store));

    // a new frame with an object: publish again
    store.begin_frame(166);
    store.insert("a".to_string(), pose_at(3.0));
    assert!(!gate.should_wait(&store));
    let packets2 = gate.take_update(&store);
    assert_eq!(packets2.len(), 1);

    // no two published batches claim the same timestamp
    assert_ne!(packets[0].time, packets2[0].time);
}

#[test]
fn packets_carry_snapshot_content() {
    let mut store = LocatedObjects::new(0);
    store.begin_frame(1_700_000_000_123);
    store.insert("screen".to_string(), pose_at(57.85));
    store.insert("wand".to_string(), identity_pose());

    let packets = packets_from_snapshot(&store);
    assert_eq!(packets.len(), 2);
    assert_eq!(packets[0].time, 1_700_000_000_123u128);
    assert_eq!(packets[0].name, "screen");
    assert_eq!(packets[0].transform.translation.z, scalar(57.85));
    assert_eq!(packets[0].transform.rotation.w, scalar(1.0));
    assert_eq!(packets[1].time, 1_700_000_000_123u128);
    assert_eq!(packets[1].name, "wand");
}

#[test]
fn empty_snapshot_gives_no_packets() {
    let store = LocatedObjects::new(42);
    let packets = packets_from_snapshot(&store);
    assert!(packets.is_empty());
}
