//! Conversation keys, sealed events and encrypted file chunks.
//!
//! A conversation key is HKDF-SHA256 (salt `nexus-p2p-v1`, info the stream id)
//! over the X25519 shared secret of the two devices. Event payloads and file
//! chunks are sealed with XChaCha20-Poly1305 under that key, with the event
//! metadata (or the manifest id and chunk hash) as associated data, and every
//! event is signed by its author with Ed25519.

use vstd::prelude::*;
use vstd::slice::slice_to_vec;
use vstd::utf8::encode_utf8;
use crate::error::NexusError;
use crate::identity::{keys_match, verify, verify_result, Identity, PublicIdentity};
use crate::model::{kind_code, signed_bytes, EventEnvelope, EventKind};
use crate::primitives::{
    aead_length_ok, ed25519_public_of, ed25519_signature, hkdf_sha256, hkdf_sha256_expand,
    new_ulid, random_bytes, x25519_public_of, x25519_shared, xchacha_decrypt, xchacha_encrypt,
    xchacha_open, xchacha_seal,
};
use crate::model::now_ms;
use crate::text::{decimal_int, push_char, push_decimal_i64};

verus! {

/// The salt of the conversation key derivation.
pub open spec fn conversation_salt() -> Seq<u8> {
    encode_utf8("nexus-p2p-v1"@)
}

/// The key of a conversation stream, from one side's exchange secret and the
/// other side's exchange public key.
pub open spec fn conversation_key_for(exchange_secret: Seq<u8>, peer_exchange_public: Seq<u8>, stream_id: Seq<char>) -> Seq<u8> {
    hkdf_sha256(conversation_salt(), x25519_shared(exchange_secret, peer_exchange_public), encode_utf8(stream_id))
}

/// Derives the key of a conversation stream with a peer. Both devices derive
/// the same key: where the peer's exchange key belongs to the secret `other`,
/// the key is the one `other` derives with this identity's exchange key.
pub fn conversation_key(identity: &Identity, peer: &PublicIdentity, stream_id: &str) -> (key: Result<[u8; 32], NexusError>)
    ensures
        key is Ok,
        key matches Ok(k) ==> k@ == conversation_key_for(
            identity.exchange_secret_view(),
            peer.exchange_public_key@,
            stream_id@,
        ),
        key matches Ok(k) ==> forall|other: Seq<u8>|
            other.len() == 32 && peer.exchange_public_key@ == #[trigger] x25519_public_of(other)
                ==> k@ == conversation_key_for(other, identity.public_view().exchange_public_key@, stream_id@),
{
    let shared = identity.shared_secret(&peer.exchange_public_key);
    match hkdf_sha256_expand("nexus-p2p-v1".as_bytes(), shared.as_slice(), stream_id.as_bytes()) {
        Some(key) => Ok(key),
        None => Err(NexusError::KeyDerivation),
    }
}

/// The associated data of an event:
/// `nexus/v1/{id}/{stream_id}/{author}/{created_at_ms}/{kind code}` in UTF-8.
pub open spec fn event_aad(id: Seq<char>, stream_id: Seq<char>, author: Seq<char>, created_at_ms: i64, kind: EventKind) -> Seq<u8> {
    encode_utf8(
        "nexus/v1/"@ + id + seq!['/'] + stream_id + seq!['/'] + author + seq!['/'] + decimal_int(
            created_at_ms as int,
        ) + seq!['/'] + decimal_int(kind_code(kind) as int),
    )
}

/// The bytes of a string, copied into a vector.
fn utf8_bytes(s: &String) -> (bytes: Vec<u8>)
    ensures
        bytes@ == encode_utf8(s@),
{
    slice_to_vec(s.as_str().as_bytes())
}

/// The associated data that binds an event's metadata to its ciphertext.
pub fn aad(id: &str, stream_id: &str, author: &str, created_at_ms: i64, kind: EventKind) -> (bytes: Vec<u8>)
    ensures
        bytes@ == event_aad(id@, stream_id@, author@, created_at_ms, kind),
{
    let mut text = String::from_str("nexus/v1/");
    text.append(id);
    push_char(&mut text, '/');
    text.append(stream_id);
    push_char(&mut text, '/');
    text.append(author);
    push_char(&mut text, '/');
    push_decimal_i64(&mut text, created_at_ms);
    push_char(&mut text, '/');
    push_decimal_i64(&mut text, kind.code() as i64);
    assert(text@ =~= "nexus/v1/"@ + id@ + seq!['/'] + stream_id@ + seq!['/'] + author@ + seq!['/']
        + decimal_int(created_at_ms as int) + seq!['/'] + decimal_int(kind_code(kind) as int));
    utf8_bytes(&text)
}

/// The associated data of a file chunk: `nexus/v1/chunk/{manifest_id}/{hash}` in UTF-8.
pub open spec fn chunk_aad(manifest_id: Seq<char>, hash: Seq<char>) -> Seq<u8> {
    encode_utf8("nexus/v1/chunk/"@ + manifest_id + seq!['/'] + hash)
}

/// The associated data that binds a chunk to its manifest and hash.
pub fn chunk_aad_bytes(manifest_id: &str, hash: &str) -> (bytes: Vec<u8>)
    ensures
        bytes@ == chunk_aad(manifest_id@, hash@),
{
    let mut text = String::from_str("nexus/v1/chunk/");
    text.append(manifest_id);
    push_char(&mut text, '/');
    text.append(hash);
    assert(text@ =~= "nexus/v1/chunk/"@ + manifest_id@ + seq!['/'] + hash@);
    utf8_bytes(&text)
}

/// Whether an event was sealed for the holder of `recipient_exchange_public`
/// by the device with the two secrets, with the given cleartext: its
/// ciphertext is the cleartext sealed under their conversation key with the
/// event's own metadata as associated data, and its signature is the author's
/// signature of the signed fields.
pub open spec fn event_sealed(
    event: EventEnvelope,
    signing_secret: Seq<u8>,
    exchange_secret: Seq<u8>,
    recipient_exchange_public: Seq<u8>,
    cleartext: Seq<u8>,
) -> bool {
    &&& event.ciphertext@ == xchacha_seal(
        conversation_key_for(exchange_secret, recipient_exchange_public, event.stream_id@),
        event.nonce@,
        cleartext,
        event_aad(event.id@, event.stream_id@, event.author.0@, event.created_at_ms, event.kind),
    )
    &&& event.signature@ == ed25519_signature(signing_secret, signed_bytes(event))
}

/// Seals and signs an event with a given id, time and nonce. It fails only
/// when the cleartext is too long for the cipher.
pub fn seal_event(
    identity: &Identity,
    peer: &PublicIdentity,
    id: String,
    stream_id: String,
    created_at_ms: i64,
    kind: EventKind,
    nonce: [u8; 24],
    cleartext: &[u8],
) -> (event: Result<EventEnvelope, NexusError>)
    ensures
        event is Ok <==> aead_length_ok(cleartext@.len() as int),
        event matches Err(e) ==> e == NexusError::EventEncryption,
        event matches Ok(e) ==> {
            &&& e.id@ == id@
            &&& e.stream_id@ == stream_id@
            &&& e.author == identity.public_view().device_id
            &&& e.created_at_ms == created_at_ms
            &&& e.kind == kind
            &&& e.ciphertext@.len() == cleartext@.len() + 16
            &&& e.signature@.len() == 64
            &&& e.nonce@ == nonce@
            &&& event_sealed(
                e,
                identity.signing_secret_view(),
                identity.exchange_secret_view(),
                peer.exchange_public_key@,
                cleartext@,
            )
        },
{
    let key = match conversation_key(identity, peer, stream_id.as_str()) {
        Ok(key) => key,
        Err(e) => return Err(e),
    };
    let author = identity.public().device_id.copied();
    let associated = aad(id.as_str(), stream_id.as_str(), author.0.as_str(), created_at_ms, kind);
    let ciphertext = match xchacha_encrypt(&key, &nonce, cleartext, associated.as_slice()) {
        Some(c) => c,
        None => return Err(NexusError::EventEncryption),
    };
    let mut event = EventEnvelope {
        id,
        stream_id,
        author,
        created_at_ms,
        kind,
        nonce,
        ciphertext,
        signature: Vec::new(),
    };
    let signed = event.signed_bytes();
    event.signature = identity.sign(signed.as_slice());
    assert(signed_bytes(event) == signed@);
    Ok(event)
}

/// Creates an event for a peer: a fresh ULID, the current time and a random
/// nonce, then seals the encoded payload and signs the event.
pub fn create_event(
    identity: &Identity,
    peer: &PublicIdentity,
    stream_id: String,
    kind: EventKind,
    cleartext: &[u8],
) -> (event: Result<EventEnvelope, NexusError>)
    ensures
        event is Ok <==> aead_length_ok(cleartext@.len() as int),
        event matches Err(e) ==> e == NexusError::EventEncryption,
        event matches Ok(e) ==> {
            &&& e.id@.len() == 26
            &&& e.stream_id@ == stream_id@
            &&& e.author == identity.public_view().device_id
            &&& e.kind == kind
            &&& e.ciphertext@.len() == cleartext@.len() + 16
            &&& e.signature@.len() == 64
            &&& event_sealed(
                e,
                identity.signing_secret_view(),
                identity.exchange_secret_view(),
                peer.exchange_public_key@,
                cleartext@,
            )
        },
{
    let id = new_ulid();
    let created_at_ms = now_ms();
    let nonce: [u8; 24] = random_bytes();
    seal_event(identity, peer, id, stream_id, created_at_ms, kind, nonce, cleartext)
}

/// The bytes of a result, or its error.
pub open spec fn result_bytes(r: Result<Vec<u8>, NexusError>) -> Result<Seq<u8>, NexusError> {
    match r {
        Ok(b) => Ok(b@),
        Err(e) => Err(e),
    }
}

/// What `verify_and_decrypt` decides: the author must match, the signature
/// must verify, and the ciphertext must open under the conversation key.
pub open spec fn opened_event(
    exchange_secret: Seq<u8>,
    peer_exchange_public: Seq<u8>,
    author: PublicIdentity,
    event: EventEnvelope,
) -> Result<Seq<u8>, NexusError> {
    if event.author.0@ != author.device_id.0@ {
        Err(NexusError::AuthorMismatch)
    } else {
        match verify_result(author, signed_bytes(event), event.signature@) {
            Err(e) => Err(e),
            Ok(()) => match xchacha_open(
                conversation_key_for(exchange_secret, peer_exchange_public, event.stream_id@),
                event.nonce@,
                event.ciphertext@,
                event_aad(event.id@, event.stream_id@, event.author.0@, event.created_at_ms, event.kind),
            ) {
                Some(m) => Ok(m),
                None => Err(NexusError::EventAuthentication),
            },
        }
    }
}

/// Checks an event's author and signature and decrypts its payload. An event
/// that the peer sealed for this identity, with the author's signing key,
/// opens to the cleartext it was sealed with.
pub fn verify_and_decrypt(
    identity: &Identity,
    peer: &PublicIdentity,
    author: &PublicIdentity,
    event: &EventEnvelope,
) -> (cleartext: Result<Vec<u8>, NexusError>)
    ensures
        result_bytes(cleartext) == opened_event(
            identity.exchange_secret_view(),
            peer.exchange_public_key@,
            *author,
            *event,
        ),
        forall|signing_secret: Seq<u8>, exchange_secret: Seq<u8>, m: Seq<u8>|
            #![trigger event_sealed(*event, signing_secret, exchange_secret, identity.public_view().exchange_public_key@, m)]
            exchange_secret.len() == 32 && signing_secret.len() == 32
                && author.signing_public_key@ == ed25519_public_of(signing_secret)
                && peer.exchange_public_key@ == x25519_public_of(exchange_secret)
                && event.author.0@ == author.device_id.0@
                && aead_length_ok(m.len() as int)
                && event_sealed(*event, signing_secret, exchange_secret, identity.public_view().exchange_public_key@, m)
                ==> result_bytes(cleartext) == Ok::<Seq<u8>, NexusError>(m),
{
    if !event.author.same(&author.device_id) {
        return Err(NexusError::AuthorMismatch);
    }
    let signed = event.signed_bytes();
    let checked = verify(author, signed.as_slice(), event.signature.as_slice());
    if let Err(e) = checked {
        return Err(e);
    }
    let key = match conversation_key(identity, peer, event.stream_id.as_str()) {
        Ok(key) => key,
        Err(e) => return Err(e),
    };
    let associated = aad(
        event.id.as_str(),
        event.stream_id.as_str(),
        event.author.0.as_str(),
        event.created_at_ms,
        event.kind,
    );
    let opened = xchacha_decrypt(&key, &event.nonce, event.ciphertext.as_slice(), associated.as_slice());
    match opened {
        Some(m) => Ok(m),
        None => Err(NexusError::EventAuthentication),
    }
}

/// Seals a file chunk with a given nonce. It fails only when the chunk is too
/// long for the cipher.
pub fn seal_chunk(
    identity: &Identity,
    peer: &PublicIdentity,
    stream_id: &str,
    manifest_id: &str,
    hash: &str,
    nonce: [u8; 24],
    cleartext: &[u8],
) -> (sealed: Result<Vec<u8>, NexusError>)
    ensures
        sealed is Ok <==> aead_length_ok(cleartext@.len() as int),
        sealed matches Err(e) ==> e == NexusError::ChunkEncryption,
        sealed matches Ok(c) ==> c@.len() == cleartext@.len() + 16,
        sealed matches Ok(c) ==> c@ == xchacha_seal(
            conversation_key_for(identity.exchange_secret_view(), peer.exchange_public_key@, stream_id@),
            nonce@,
            cleartext@,
            chunk_aad(manifest_id@, hash@),
        ),
{
    let key = match conversation_key(identity, peer, stream_id) {
        Ok(key) => key,
        Err(e) => return Err(e),
    };
    let associated = chunk_aad_bytes(manifest_id, hash);
    match xchacha_encrypt(&key, &nonce, cleartext, associated.as_slice()) {
        Some(c) => Ok(c),
        None => Err(NexusError::ChunkEncryption),
    }
}

/// Encrypts a file chunk for a peer under a fresh random nonce.
pub fn encrypt_chunk(
    identity: &Identity,
    peer: &PublicIdentity,
    stream_id: &str,
    manifest_id: &str,
    hash: &str,
    cleartext: &[u8],
) -> (sealed: Result<([u8; 24], Vec<u8>), NexusError>)
    ensures
        sealed is Ok <==> aead_length_ok(cleartext@.len() as int),
        sealed matches Err(e) ==> e == NexusError::ChunkEncryption,
        sealed matches Ok((nonce, c)) ==> c@.len() == cleartext@.len() + 16,
        sealed matches Ok((nonce, c)) ==> c@ == xchacha_seal(
            conversation_key_for(identity.exchange_secret_view(), peer.exchange_public_key@, stream_id@),
            nonce@,
            cleartext@,
            chunk_aad(manifest_id@, hash@),
        ),
{
    let nonce: [u8; 24] = random_bytes();
    match seal_chunk(identity, peer, stream_id, manifest_id, hash, nonce, cleartext) {
        Ok(c) => Ok((nonce, c)),
        Err(e) => Err(e),
    }
}

/// What `decrypt_chunk` decides.
pub open spec fn opened_chunk(
    exchange_secret: Seq<u8>,
    peer_exchange_public: Seq<u8>,
    stream_id: Seq<char>,
    manifest_id: Seq<char>,
    hash: Seq<char>,
    nonce: Seq<u8>,
    ciphertext: Seq<u8>,
) -> Result<Seq<u8>, NexusError> {
    match xchacha_open(
        conversation_key_for(exchange_secret, peer_exchange_public, stream_id),
        nonce,
        ciphertext,
        chunk_aad(manifest_id, hash),
    ) {
        Some(m) => Ok(m),
        None => Err(NexusError::ChunkAuthentication),
    }
}

/// Decrypts a file chunk from a peer. A chunk the peer sealed for this
/// identity under the same stream, manifest id and hash opens to its cleartext.
pub fn decrypt_chunk(
    identity: &Identity,
    peer: &PublicIdentity,
    stream_id: &str,
    manifest_id: &str,
    hash: &str,
    nonce: &[u8; 24],
    ciphertext: &[u8],
) -> (cleartext: Result<Vec<u8>, NexusError>)
    ensures
        result_bytes(cleartext) == opened_chunk(
            identity.exchange_secret_view(),
            peer.exchange_public_key@,
            stream_id@,
            manifest_id@,
            hash@,
            nonce@,
            ciphertext@,
        ),
        forall|exchange_secret: Seq<u8>, m: Seq<u8>|
            #![trigger xchacha_seal(conversation_key_for(exchange_secret, identity.public_view().exchange_public_key@, stream_id@), nonce@, m, chunk_aad(manifest_id@, hash@))]
            exchange_secret.len() == 32
                && peer.exchange_public_key@ == x25519_public_of(exchange_secret)
                && aead_length_ok(m.len() as int)
                && ciphertext@ == xchacha_seal(
                    conversation_key_for(exchange_secret, identity.public_view().exchange_public_key@, stream_id@),
                    nonce@,
                    m,
                    chunk_aad(manifest_id@, hash@),
                ) ==> result_bytes(cleartext) == Ok::<Seq<u8>, NexusError>(m),
{
    let key = match conversation_key(identity, peer, stream_id) {
        Ok(key) => key,
        Err(e) => return Err(e),
    };
    let associated = chunk_aad_bytes(manifest_id, hash);
    match xchacha_decrypt(&key, nonce, ciphertext, associated.as_slice()) {
        Some(m) => Ok(m),
        None => Err(NexusError::ChunkAuthentication),
    }
}

} // verus!
