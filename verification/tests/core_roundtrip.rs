use ciborium::value::Value;
use nexus_core::crypto::{create_event, verify_and_decrypt};
use nexus_core::files::{FileAssembler, ManifestBuilder};
use nexus_core::identity::Identity;
use nexus_core::model::{direct_stream_id, EventKind, FILE_CHUNK_SIZE};

fn text_payload(text: &str) -> Vec<u8> {
    let value = Value::Map(vec![
        (Value::Text("type".into()), Value::Text("text".into())),
        (
            Value::Text("data".into()),
            Value::Map(vec![(Value::Text("text".into()), Value::Text(text.into()))]),
        ),
    ]);
    let mut bytes = Vec::new();
    ciborium::ser::into_writer(&value, &mut bytes).unwrap();
    bytes
}

#[test]
fn identity_crypto_and_blob_roundtrip() {
    let alice = Identity::generate("Alice");
    let bob = Identity::generate("Bob");
    let stream = direct_stream_id(&alice.public().device_id, &bob.public().device_id);
    let payload = text_payload("offline hello");
    let event = create_event(&alice, bob.public(), stream, EventKind::Text, &payload).unwrap();
    let opened = verify_and_decrypt(&bob, alice.public(), alice.public(), &event).unwrap();
    assert_eq!(opened, payload);
    let decoded: Value = ciborium::de::from_reader(opened.as_slice()).unwrap();
    let expected: Value = ciborium::de::from_reader(payload.as_slice()).unwrap();
    assert_eq!(decoded, expected);

    let source = vec![0x5a_u8; 600_000];
    let mut builder = ManifestBuilder::new();
    let mut stored = Vec::new();
    for chunk in source.chunks(FILE_CHUNK_SIZE) {
        let descriptor = builder.add_chunk(chunk);
        stored.push((descriptor.hash.clone(), chunk.to_vec()));
    }
    let manifest = builder.finish("m1".into(), "payload.bin".into(), "application/octet-stream".into());
    let mut assembler = FileAssembler::new();
    let mut restored = Vec::new();
    for (hash, bytes) in &stored {
        assert!(manifest.chunks.iter().any(|c| &c.hash == hash));
        assembler.add_chunk(&manifest, bytes).unwrap();
        restored.extend_from_slice(bytes);
    }
    assembler.finish(&manifest).unwrap();
    assert_eq!(source, restored);
    assert!(manifest.chunks.len() >= 3);
}
