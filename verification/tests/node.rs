use nexus_core::error::NexusError;
use nexus_core::identity::{DeviceId, Identity, PublicIdentity};
use nexus_core::model::{EventEnvelope, EventKind, FileManifest, ChunkDescriptor, Peer, PeerEndpoint};
use nexus_core::node::{
    acknowledges, answer_pair_request, carries_manifest, chat_author, check_chunk_response, check_pair_response, check_pushed_event,
    check_request, check_request_body, check_response, check_sync_response, check_sync_stream,
    chunk_batches, default_discovery, default_port, event_ids, events_missing_for_peer, from_sender,
    is_ack, manifest_lists, newly_paired_peer, next_chunk_request, normalize_display_name,
    own_events, pairing_nonce, received_chunks, renamed_identity, require_paired_peer,
    require_reachable_peer, require_sender_paired, requested_chunks, response_body, seen_peer, syncs_on_discovery,
};
use nexus_core::protocol::{WireChunk, WireEnvelope, WireMessage};

fn event(id: &str, author: &str, at: i64) -> EventEnvelope {
    EventEnvelope {
        id: id.into(),
        stream_id: "dm:a:b".into(),
        author: DeviceId(author.into()),
        created_at_ms: at,
        kind: EventKind::Text,
        nonce: [0; 24],
        ciphertext: vec![1, 2],
        signature: vec![],
    }
}

fn peer(identity: &PublicIdentity, endpoint: bool, paired: bool) -> Peer {
    Peer {
        identity: identity.clone(),
        endpoint: if endpoint { Some(PeerEndpoint { host: "h".into(), port: 1 }) } else { None },
        paired,
        last_seen_ms: 5,
    }
}

#[test]
fn defaults() {
    assert_eq!(default_port(), 47777);
    assert!(default_discovery());
}

#[test]
fn peer_requirements() {
    let bob = Identity::from_secrets("Bob", [3; 32], [4; 32]);
    let id = bob.public().device_id.clone();
    let err = require_reachable_peer(&id, None).unwrap_err();
    assert_eq!(err.message(), format!("unknown peer {}", id.0));
    let err = require_reachable_peer(&id, Some(peer(bob.public(), false, true))).unwrap_err();
    assert_eq!(err, NexusError::PeerOffline(id.clone()));
    assert_eq!(err.message(), format!("peer {} is offline", id.0));
    assert!(require_reachable_peer(&id, Some(peer(bob.public(), true, false))).is_ok());
    let err = require_paired_peer(&id, Some(peer(bob.public(), true, false))).unwrap_err();
    assert_eq!(err.message(), format!("peer {} is not paired", id.0));
    assert_eq!(require_paired_peer(&id, Some(peer(bob.public(), true, true))).unwrap(), peer(bob.public(), true, true));
}

#[test]
fn sender_requirements() {
    let bob = Identity::from_secrets("Bob", [3; 32], [4; 32]);
    let b = bob.public();
    assert_eq!(require_sender_paired(b, None), Err(NexusError::UnknownSender));
    assert_eq!(require_sender_paired(b, Some(peer(b, false, false))), Err(NexusError::SenderNotPaired));
    let mut changed = b.clone();
    changed.display_name = "Robert".into();
    assert_eq!(require_sender_paired(&changed, Some(peer(b, false, true))), Err(NexusError::PairedIdentityChanged));
    assert_eq!(NexusError::PairedIdentityChanged.message(), "paired identity changed");
    assert!(require_sender_paired(b, Some(peer(b, false, true))).is_ok());
}

#[test]
fn request_and_response_checks() {
    let alice = Identity::from_secrets("Alice", [1; 32], [2; 32]);
    let bob = Identity::from_secrets("Bob", [3; 32], [4; 32]);
    let envelope = |version: u16, sender: &PublicIdentity, body: WireMessage| WireEnvelope { version, sender: sender.clone(), body };
    assert_eq!(check_request(&envelope(1, alice.public(), WireMessage::Hello)), Ok(()));
    assert_eq!(check_request(&envelope(2, alice.public(), WireMessage::Hello)), Err(NexusError::UnsupportedProtocolVersion));
    let bob_peer = peer(bob.public(), true, true);
    assert_eq!(check_response(&bob_peer, &envelope(1, bob.public(), WireMessage::Hello)), Ok(()));
    assert_eq!(check_response(&bob_peer, &envelope(1, alice.public(), WireMessage::Hello)), Err(NexusError::ResponseIdentityMismatch));
    let reported = check_response(&bob_peer, &envelope(1, bob.public(), WireMessage::Error { message: "boom".into() })).unwrap_err();
    assert_eq!(reported.message(), "boom");
    assert_eq!(check_request_body(&WireMessage::Hello), Ok(()));
    assert_eq!(check_request_body(&WireMessage::Ack { event_id: "e".into() }), Err(NexusError::ResponseAsRequest));
    assert_eq!(NexusError::ResponseAsRequest.message(), "response message used as a request");
}

#[test]
fn display_names() {
    assert_eq!(normalize_display_name("  Bob  "), Ok("Bob".to_string()));
    assert_eq!(normalize_display_name(" \t "), Err(NexusError::DeviceNameEmpty));
    assert_eq!(normalize_display_name(&"x".repeat(40)), Ok("x".repeat(40)));
    assert_eq!(normalize_display_name(&"é".repeat(41)), Err(NexusError::DeviceNameTooLong));
    assert_eq!(NexusError::DeviceNameTooLong.message(), "device name is too long");
    let alice = Identity::from_secrets("Alice", [1; 32], [2; 32]);
    let renamed = renamed_identity(alice.public(), "Ally");
    assert_eq!(renamed.display_name, "Ally");
    assert_eq!(renamed.device_id, alice.public().device_id);
}

#[test]
fn chat_authors() {
    let alice = Identity::from_secrets("Alice", [1; 32], [2; 32]);
    let bob = Identity::from_secrets("Bob", [3; 32], [4; 32]);
    let mine = event("1", &alice.public().device_id.0, 1);
    let theirs = event("2", &bob.public().device_id.0, 2);
    assert_eq!(&chat_author(alice.public(), bob.public(), &mine), alice.public());
    assert_eq!(&chat_author(alice.public(), bob.public(), &theirs), bob.public());
}

#[test]
fn sync_selection() {
    let events = vec![event("1", "me", 1), event("2", "you", 2), event("3", "me", 3), event("4", "me", 4)];
    let me = DeviceId("me".into());
    let own = own_events(events.clone(), &me);
    assert_eq!(own.iter().map(|e| e.id.as_str()).collect::<Vec<_>>(), vec!["1", "3", "4"]);
    assert_eq!(event_ids(&events), vec!["1", "2", "3", "4"]);
    let known = vec!["3".to_string(), "2".to_string()];
    let missing = events_missing_for_peer(events.clone(), &me, &known);
    assert_eq!(missing.iter().map(|e| e.id.as_str()).collect::<Vec<_>>(), vec!["1", "4"]);
    assert!(from_sender(&events[1], &DeviceId("you".into())));
    assert!(!from_sender(&events[0], &DeviceId("you".into())));
}

#[test]
fn pushed_events_and_streams() {
    let alice = Identity::from_secrets("Alice", [1; 32], [2; 32]);
    let a = alice.public();
    assert_eq!(check_pushed_event(a, &event("1", &a.device_id.0, 1)), Ok(()));
    assert_eq!(check_pushed_event(a, &event("1", "someone", 1)), Err(NexusError::ForwardedEvent));
    let x = DeviceId("x".into());
    let y = DeviceId("y".into());
    assert_eq!(check_sync_stream(&y, &x, &"dm:x:y".to_string()), Ok(()));
    assert_eq!(check_sync_stream(&x, &y, &"dm:y:x".to_string()), Err(NexusError::InvalidStreamId));
}

fn manifest(n: u32) -> FileManifest {
    FileManifest {
        id: "m".into(),
        name: "f".into(),
        media_type: "t".into(),
        size: 0,
        chunk_size: 262_144,
        chunks: (0..n).map(|i| ChunkDescriptor { index: i, hash: format!("h{i}"), size: 1 }).collect(),
        file_hash: "w".into(),
    }
}

#[test]
fn chunk_requests() {
    let m = manifest(20);
    assert!(manifest_lists(&m, &"h19".to_string()));
    assert!(!manifest_lists(&m, &"h20".to_string()));
    let hashes: Vec<String> = (0..20).map(|i| format!("h{i}")).collect();
    assert_eq!(requested_chunks(&m, &hashes), (hashes[..16].to_vec(), None));
    let mut bad = hashes.clone();
    bad[3] = "zz".into();
    assert_eq!(requested_chunks(&m, &bad), (hashes[..3].to_vec(), Some(NexusError::ChunkNotInManifest)));
    let mut late = hashes.clone();
    late[18] = "zz".into();
    assert_eq!(requested_chunks(&m, &late), (hashes[..16].to_vec(), None));
    assert_eq!(next_chunk_request(&hashes), hashes[..16].to_vec());
    assert_eq!(next_chunk_request(&hashes[..3].to_vec()), hashes[..3].to_vec());
    assert_eq!(received_chunks(20, 4), 16);
    assert_eq!(chunk_batches(33), vec![(0, 16), (16, 32), (32, 33)]);
    assert_eq!(chunk_batches(32), vec![(0, 16), (16, 32)]);
    assert_eq!(chunk_batches(0), vec![]);
}

#[test]
fn responses() {
    assert_eq!(check_pair_response(&WireMessage::PairResponse { accepted: true }), Ok(()));
    assert_eq!(check_pair_response(&WireMessage::PairResponse { accepted: false }), Err(NexusError::PairRejected));
    assert_eq!(check_pair_response(&WireMessage::Hello), Err(NexusError::UnexpectedPairResponse));
    assert!(acknowledges(&WireMessage::Ack { event_id: "e".into() }, &"e".to_string()));
    assert!(!acknowledges(&WireMessage::Ack { event_id: "f".into() }, &"e".to_string()));
    assert!(is_ack(&WireMessage::Ack { event_id: "f".into() }));
    assert!(!is_ack(&WireMessage::Hello));
    assert_eq!(check_sync_response(&WireMessage::SyncResult { events: vec![] }), Ok(()));
    assert_eq!(check_sync_response(&WireMessage::Hello), Err(NexusError::UnexpectedSyncResponse));
    let chunk = WireChunk { hash: "h".into(), nonce: [0; 24], bytes: vec![] };
    let ok = WireMessage::ChunkResult { manifest_id: "m".into(), chunks: vec![chunk.clone()] };
    assert_eq!(check_chunk_response(&"m".to_string(), &ok), Ok(()));
    assert_eq!(check_chunk_response(&"n".to_string(), &ok), Err(NexusError::ManifestResponseMismatch));
    let empty = WireMessage::ChunkResult { manifest_id: "m".into(), chunks: vec![] };
    assert_eq!(check_chunk_response(&"m".to_string(), &empty), Err(NexusError::NoChunksReturned));
    assert_eq!(check_chunk_response(&"m".to_string(), &WireMessage::Hello), Err(NexusError::UnexpectedChunkResponse));
}

#[test]
fn peer_records() {
    let alice = Identity::from_secrets("Alice", [1; 32], [2; 32]);
    let a = alice.public().clone();
    let endpoint = PeerEndpoint { host: "h".into(), port: 9 };
    let stored = Some(peer(&a, false, true));
    let seen = seen_peer(a.clone(), endpoint.clone(), &stored, 77);
    assert!(seen.paired);
    assert_eq!(seen.endpoint, Some(endpoint.clone()));
    assert_eq!(seen.last_seen_ms, 77);
    assert!(!seen_peer(a.clone(), endpoint.clone(), &None, 1).paired);
    let paired = newly_paired_peer(a, None, 3);
    assert!(paired.paired);
    let nonce = pairing_nonce();
    assert_eq!(nonce.len(), 12);
    assert!(nonce.chars().all(|c| c.is_ascii_hexdigit() && !c.is_ascii_uppercase()));
}

#[test]
fn pair_requests_are_accepted_at_the_known_endpoint() {
    let bob = Identity::from_secrets("Bob", [3; 32], [4; 32]);
    let b = bob.public();
    let (record, answer) = answer_pair_request(b.clone(), &Some(peer(b, true, false)), 42);
    assert!(matches!(answer, WireMessage::PairResponse { accepted: true }));
    assert_eq!(record, Peer { identity: b.clone(), endpoint: Some(PeerEndpoint { host: "h".into(), port: 1 }), paired: true, last_seen_ms: 42 });
    let (record, answer) = answer_pair_request(b.clone(), &None, 7);
    assert!(matches!(answer, WireMessage::PairResponse { accepted: true }));
    assert_eq!(record.endpoint, None);
    assert!(record.paired);
    assert_eq!(record.last_seen_ms, 7);
}

#[test]
fn manifests_and_discovery_syncs() {
    let mut e = event("01", "a", 1);
    assert!(!carries_manifest(&e));
    e.kind = EventKind::FileManifest;
    assert!(carries_manifest(&e));
    let bob = Identity::from_secrets("Bob", [3; 32], [4; 32]);
    assert!(syncs_on_discovery(&peer(bob.public(), true, true)));
    assert!(!syncs_on_discovery(&peer(bob.public(), true, false)));
}

#[test]
fn every_request_gets_one_response_body() {
    let refused = response_body(Err(NexusError::UnsupportedProtocolVersion), Err(String::new()));
    match refused {
        WireMessage::Error { message } => assert_eq!(message, NexusError::UnsupportedProtocolVersion.message()),
        _ => panic!("a refused request is answered with an error report"),
    }
    assert!(matches!(response_body(Ok(()), Ok(WireMessage::Hello)), WireMessage::Hello));
    match response_body(Ok(()), Err("unknown manifest".into())) {
        WireMessage::Error { message } => assert_eq!(message, "unknown manifest"),
        _ => panic!("a failed handler is answered with its error"),
    }
}
