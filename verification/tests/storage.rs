use nexus_core::error::NexusError;
use nexus_core::identity::{DeviceId, Identity};
use nexus_core::model::{EventEnvelope, EventKind, Peer, PeerEndpoint};
use nexus_core::storage::{blob_shard, check_blob, merge_peer, sort_events};

fn event(id: &str, at: i64) -> EventEnvelope {
    EventEnvelope {
        id: id.into(),
        stream_id: "s".into(),
        author: DeviceId("a".into()),
        created_at_ms: at,
        kind: EventKind::Text,
        nonce: [0; 24],
        ciphertext: vec![],
        signature: vec![],
    }
}

#[test]
fn peer_updates_keep_pairing_and_endpoint() {
    let alice = Identity::from_secrets("Alice", [1; 32], [2; 32]);
    let endpoint = PeerEndpoint { host: "h".into(), port: 1 };
    let stored = Peer { identity: alice.public().clone(), endpoint: Some(endpoint.clone()), paired: true, last_seen_ms: 1 };
    let mut renamed = alice.public().clone();
    renamed.display_name = "Ally".into();
    let incoming = Peer { identity: renamed.clone(), endpoint: None, paired: false, last_seen_ms: 9 };
    let merged = merge_peer(Some(stored.clone()), incoming.clone());
    assert_eq!(merged, Peer { identity: renamed.clone(), endpoint: Some(endpoint), paired: true, last_seen_ms: 9 });
    assert_eq!(merge_peer(Some(merged.clone()), incoming.clone()), merged);
    assert_eq!(merge_peer(None, incoming.clone()), incoming);
    let moved = Peer { endpoint: Some(PeerEndpoint { host: "new".into(), port: 2 }), ..incoming };
    assert_eq!(merge_peer(Some(stored), moved.clone()).endpoint, moved.endpoint);
}

#[test]
fn blobs() {
    let hash = blake3::hash(b"chunk").to_hex().to_string();
    assert_eq!(check_blob(&hash, b"chunk"), Ok(()));
    assert_eq!(check_blob(&hash, b"chunk!"), Err(NexusError::ChunkHashMismatch));
    assert_eq!(NexusError::ChunkHashMismatch.message(), "chunk hash mismatch");
    assert_eq!(blob_shard(&hash), hash[..2]);
}

#[test]
fn events_are_shown_by_time_then_id() {
    let sorted = sort_events(vec![event("b", 5), event("a", 5), event("z", 1), event("c", 9), event("a", 5)]);
    let order: Vec<(i64, &str)> = sorted.iter().map(|e| (e.created_at_ms, e.id.as_str())).collect();
    assert_eq!(order, vec![(1, "z"), (5, "a"), (5, "a"), (5, "b"), (9, "c")]);
    assert!(sort_events(vec![]).is_empty());
}

#[test]
fn blob_shard_takes_two_bytes() {
    assert_eq!(blob_shard("éabc"), "é");
    assert_eq!(blob_shard("abcdef"), "ab");
}
