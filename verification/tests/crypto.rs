use ed25519_dalek::Verifier;
use base64::Engine;
use nexus_core::crypto::{
    aad, chunk_aad_bytes, conversation_key, create_event, decrypt_chunk, encrypt_chunk, seal_event,
    verify_and_decrypt,
};
use nexus_core::error::NexusError;
use nexus_core::identity::{device_id_from_key, validate_public_identity, verify, Identity};
use nexus_core::model::{direct_stream_id, EventKind};

#[test]
fn conversation_keys_agree() {
    let alice = Identity::generate("Alice");
    let bob = Identity::generate("Bob");
    let a = conversation_key(&alice, bob.public(), "dm:x:y").unwrap();
    let b = conversation_key(&bob, alice.public(), "dm:x:y").unwrap();
    assert_eq!(a, b);
    let other = conversation_key(&alice, bob.public(), "dm:x:z").unwrap();
    assert_ne!(a, other);
}

#[test]
fn conversation_key_matches_hkdf_of_shared_secret() {
    let alice = Identity::from_secrets("Alice", [1; 32], [2; 32]);
    let bob = Identity::from_secrets("Bob", [3; 32], [4; 32]);
    let key = conversation_key(&alice, bob.public(), "stream").unwrap();
    let shared = x25519_dalek::StaticSecret::from([2_u8; 32])
        .diffie_hellman(&x25519_dalek::PublicKey::from(bob.public().exchange_public_key))
        .to_bytes();
    let hk = hkdf::Hkdf::<sha2::Sha256>::new(Some(b"nexus-p2p-v1"), &shared);
    let mut expected = [0_u8; 32];
    hk.expand(b"stream", &mut expected).unwrap();
    assert_eq!(key, expected);
}

#[test]
fn event_roundtrip_and_tampering() {
    let alice = Identity::generate("Alice");
    let bob = Identity::generate("Bob");
    let stream = direct_stream_id(&alice.public().device_id, &bob.public().device_id);
    let event = create_event(&alice, bob.public(), stream.clone(), EventKind::Text, b"hello").unwrap();
    assert_eq!(event.id.len(), 26);
    assert_eq!(event.stream_id, stream);
    assert_eq!(event.author, alice.public().device_id);
    assert_eq!(event.ciphertext.len(), 5 + 16);
    assert_eq!(event.signature.len(), 64);
    assert_eq!(verify_and_decrypt(&bob, alice.public(), alice.public(), &event).unwrap(), b"hello");
    // The author can read its own event back as well.
    assert_eq!(verify_and_decrypt(&alice, bob.public(), alice.public(), &event).unwrap(), b"hello");

    assert_eq!(
        verify_and_decrypt(&bob, alice.public(), bob.public(), &event),
        Err(NexusError::AuthorMismatch)
    );
    let mut forged = event.clone();
    forged.created_at_ms += 1;
    assert_eq!(
        verify_and_decrypt(&bob, alice.public(), alice.public(), &forged),
        Err(NexusError::InvalidSignature)
    );
    let mut truncated = event.clone();
    truncated.signature.pop();
    assert_eq!(
        verify_and_decrypt(&bob, alice.public(), alice.public(), &truncated),
        Err(NexusError::SignatureLength)
    );
    // A third party with a valid signature cannot open a ciphertext sealed for another key.
    let carol = Identity::generate("Carol");
    let mut resealed = event.clone();
    resealed.ciphertext[0] ^= 1;
    resealed.signature = alice.sign(&resealed.signed_bytes());
    assert_eq!(
        verify_and_decrypt(&bob, alice.public(), alice.public(), &resealed),
        Err(NexusError::EventAuthentication)
    );
    assert_eq!(
        verify_and_decrypt(&carol, alice.public(), alice.public(), &event),
        Err(NexusError::EventAuthentication)
    );
}

#[test]
fn sealed_event_is_deterministic() {
    let alice = Identity::from_secrets("Alice", [7; 32], [8; 32]);
    let bob = Identity::from_secrets("Bob", [9; 32], [10; 32]);
    let a = seal_event(&alice, bob.public(), "01ID".into(), "s".into(), 42, EventKind::System, [5; 24], b"x").unwrap();
    let b = seal_event(&alice, bob.public(), "01ID".into(), "s".into(), 42, EventKind::System, [5; 24], b"x").unwrap();
    assert_eq!(a, b);
    assert_eq!(a.nonce, [5; 24]);
    assert_eq!(a.created_at_ms, 42);
}

#[test]
fn signed_bytes_are_bincode_of_the_signed_fields() {
    let alice = Identity::generate("Alice");
    let bob = Identity::generate("Bob");
    let event = create_event(&alice, bob.public(), "dm:a:b".into(), EventKind::FileManifest, b"abc").unwrap();
    let expected = bincode::serialize(&(
        event.id.as_str(),
        event.stream_id.as_str(),
        event.author.0.as_str(),
        event.created_at_ms,
        1_u32,
        &event.nonce,
        event.ciphertext.as_slice(),
    ))
    .unwrap();
    assert_eq!(event.signed_bytes(), expected);
    assert!(verify(alice.public(), &expected, &event.signature).is_ok());
}

#[test]
fn aad_texts() {
    assert_eq!(aad("01", "dm:a:b", "a", -5, EventKind::Text), b"nexus/v1/01/dm:a:b/a/-5/1".to_vec());
    assert_eq!(aad("x", "s", "y", 1700000000123, EventKind::System), b"nexus/v1/x/s/y/1700000000123/3".to_vec());
    assert_eq!(aad("x", "s", "y", i64::MIN, EventKind::FileManifest), b"nexus/v1/x/s/y/-9223372036854775808/2".to_vec());
    assert_eq!(chunk_aad_bytes("m", "h"), b"nexus/v1/chunk/m/h".to_vec());
}

#[test]
fn chunk_roundtrip() {
    let alice = Identity::generate("Alice");
    let bob = Identity::generate("Bob");
    let (nonce, sealed) = encrypt_chunk(&alice, bob.public(), "s", "m", "h", b"chunk data").unwrap();
    assert_eq!(sealed.len(), 10 + 16);
    assert_eq!(decrypt_chunk(&bob, alice.public(), "s", "m", "h", &nonce, &sealed).unwrap(), b"chunk data");
    assert_eq!(
        decrypt_chunk(&bob, alice.public(), "s", "other", "h", &nonce, &sealed),
        Err(NexusError::ChunkAuthentication)
    );
    assert_eq!(
        decrypt_chunk(&bob, alice.public(), "s", "m", "h", &nonce, &sealed[..10]),
        Err(NexusError::ChunkAuthentication)
    );
}

#[test]
fn identity_keys_and_device_id() {
    let identity = Identity::from_secrets("Dev", [11; 32], [12; 32]);
    let public = identity.public();
    let signing = ed25519_dalek::SigningKey::from_bytes(&[11; 32]);
    assert_eq!(public.signing_public_key, signing.verifying_key().to_bytes());
    let exchange = x25519_dalek::PublicKey::from(&x25519_dalek::StaticSecret::from([12_u8; 32]));
    assert_eq!(public.exchange_public_key, exchange.to_bytes());
    let hash = blake3::hash(&public.signing_public_key);
    assert_eq!(public.device_id.0, hex::encode(&hash.as_bytes()[..16]));
    assert_eq!(public.device_id.0.len(), 32);
    assert_eq!(device_id_from_key(&public.signing_public_key), public.device_id);
    assert_eq!(public.display_name, "Dev");
    let mut secrets = vec![11_u8; 32];
    secrets.extend_from_slice(&[12_u8; 32]);
    assert_eq!(identity.encode_secrets(), base64::engine::general_purpose::STANDARD_NO_PAD.encode(&secrets));
}

#[test]
fn signatures_verify_only_for_their_message() {
    let identity = Identity::generate("Signer");
    let signature = identity.sign(b"message");
    assert_eq!(signature.len(), 64);
    assert_eq!(verify(identity.public(), b"message", &signature), Ok(()));
    assert_eq!(verify(identity.public(), b"massage", &signature), Err(NexusError::InvalidSignature));
    assert_eq!(verify(identity.public(), b"message", &signature[..63]), Err(NexusError::SignatureLength));
    let mut high = signature.clone();
    high[32..].copy_from_slice(&[0xff; 32]);
    assert_eq!(verify(identity.public(), b"message", &high), Err(NexusError::SignatureScalar));

    // The messages are the ones ed25519-dalek reports for the same faults.
    let key = ed25519_dalek::VerifyingKey::from_bytes(&identity.public().signing_public_key).unwrap();
    let wrong = key.verify(b"massage", &ed25519_dalek::Signature::from_slice(&signature).unwrap()).unwrap_err();
    assert_eq!(NexusError::InvalidSignature.message(), wrong.to_string());
    let scalar = key.verify(b"message", &ed25519_dalek::Signature::from_slice(&high).unwrap()).unwrap_err();
    assert_eq!(NexusError::SignatureScalar.message(), scalar.to_string());
    let length = ed25519_dalek::Signature::from_slice(&signature[..63]).unwrap_err();
    assert_eq!(NexusError::SignatureLength.message(), length.to_string());
}

#[test]
fn public_identity_validation() {
    let identity = Identity::generate("Valid");
    assert_eq!(validate_public_identity(identity.public()), Ok(()));

    let mut renamed = identity.public().clone();
    renamed.display_name = " \t\n".into();
    assert_eq!(validate_public_identity(&renamed), Err(NexusError::EmptyDisplayName));
    assert_eq!(NexusError::EmptyDisplayName.message(), "empty display name");

    let mut wrong_id = identity.public().clone();
    wrong_id.device_id.0 = "00".repeat(16);
    assert_eq!(validate_public_identity(&wrong_id), Err(NexusError::DeviceIdMismatch));

    let invalid_key = (0_u8..=255)
        .map(|b| [b; 32])
        .find(|k| ed25519_dalek::VerifyingKey::from_bytes(k).is_err())
        .expect("some byte pattern is not a curve point");
    let mut bad_key = identity.public().clone();
    bad_key.signing_public_key = invalid_key;
    assert_eq!(validate_public_identity(&bad_key), Err(NexusError::InvalidSigningKey));
    assert_eq!(verify(&bad_key, b"m", &[0; 64]), Err(NexusError::InvalidSigningKey));
    let refused = ed25519_dalek::VerifyingKey::from_bytes(&invalid_key).unwrap_err();
    assert_eq!(NexusError::InvalidSigningKey.message(), refused.to_string());
}

#[test]
fn identity_secrets_restore_from_their_stored_form() {
    let identity = Identity::from_secrets("Dev", [11; 32], [12; 32]);
    let text = identity.encode_secrets();
    let mut bytes = vec![11_u8; 32];
    bytes.extend_from_slice(&[12_u8; 32]);
    assert_eq!(text, base64::engine::general_purpose::STANDARD_NO_PAD.encode(&bytes));

    let restored = match Identity::restore("Renamed", &text) {
        Ok(restored) => restored,
        Err(error) => panic!("restore failed: {}", error.message()),
    };
    assert_eq!(restored.encode_secrets(), text);
    assert_eq!(restored.public().display_name, "Renamed");
    assert_eq!(restored.public().device_id, identity.public().device_id);
    assert_eq!(restored.public().signing_public_key, identity.public().signing_public_key);

    let bad = base64::engine::general_purpose::STANDARD_NO_PAD.decode("not base64!").unwrap_err().to_string();
    match Identity::restore("X", "not base64!") {
        Err(NexusError::SecretNotBase64(message)) => assert_eq!(message, bad),
        _ => panic!("expected a base64 error"),
    }
    let short = base64::engine::general_purpose::STANDARD_NO_PAD.encode([1_u8; 63]);
    let truncated = bincode::deserialize::<([u8; 32], [u8; 32])>(&[1_u8; 63]).unwrap_err().to_string();
    match Identity::restore("X", &short) {
        Err(error @ NexusError::SecretTruncated(_)) => assert_eq!(error.message(), truncated),
        _ => panic!("expected a truncation error"),
    }
    let long = base64::engine::general_purpose::STANDARD_NO_PAD.encode([5_u8; 70]);
    let restored = match Identity::restore("X", &long) {
        Ok(restored) => restored,
        Err(error) => panic!("restore failed: {}", error.message()),
    };
    let first = base64::engine::general_purpose::STANDARD_NO_PAD.encode([5_u8; 64]);
    assert_eq!(restored.encode_secrets(), first);
}
