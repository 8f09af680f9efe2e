//! Every call into an outside crate that the library's logic makes.
//!
//! Each item here is trusted: Verus believes its contract without reading its
//! body. Deterministic primitives get a name for their result (an
//! uninterpreted spec function) together with the few facts their
//! documentation promises; calls whose result rests on chance or the clock
//! promise only what holds of every outcome.

use vstd::prelude::*;
use vstd::bytes::*;
use vstd::utf8::encode_utf8;
use crate::text::hex_lower;
use ed25519_dalek::{Signer, Verifier};
use chacha20poly1305::aead::{Aead, KeyInit, Payload};
use rand_core::RngCore;
use base64::Engine;

verus! {

/// The bytes held by an optional vector.
pub open spec fn bytes_view(bytes: Option<Vec<u8>>) -> Option<Seq<u8>> {
    match bytes {
        Some(b) => Some(b@),
        None => None,
    }
}

/// The bytes of a successful result.
pub open spec fn ok_bytes(bytes: Result<Vec<u8>, String>) -> Option<Seq<u8>> {
    match bytes {
        Ok(b) => Some(b@),
        Err(_) => None,
    }
}

// ------------------------------------------------------------------------
// hex
// ------------------------------------------------------------------------

/// `hex::encode`: lowercase hexadecimal text of the bytes, two digits per byte.
#[verifier::external_body]
pub(crate) fn hex_encode(bytes: &[u8]) -> (text: String)
    ensures
        text@ == hex_lower(bytes@),
{
    hex::encode(bytes)
}

/// The value of one hexadecimal digit, either case; `None` for any other character.
pub open spec fn hex_value(c: char) -> Option<int> {
    if '0' <= c && c <= '9' {
        Some(c as int - 48)
    } else if 'a' <= c && c <= 'f' {
        Some(c as int - 87)
    } else if 'A' <= c && c <= 'F' {
        Some(c as int - 55)
    } else {
        None
    }
}

/// Hexadecimal text decoded pairwise; `None` for an odd length or a character
/// that is not a hexadecimal digit.
pub open spec fn hex_decoded(text: Seq<char>) -> Option<Seq<u8>>
    decreases text.len(),
{
    if text.len() == 0 {
        Some(Seq::empty())
    } else if text.len() == 1 {
        None
    } else {
        match (hex_value(text[0]), hex_value(text[1]), hex_decoded(text.subrange(2, text.len() as int))) {
            (Some(hi), Some(lo), Some(rest)) => Some(seq![(hi * 16 + lo) as u8] + rest),
            _ => None,
        }
    }
}

/// `hex::decode`: decodes hexadecimal text of either case; fails on an odd
/// length or on any character that is not a hexadecimal digit.
#[verifier::external_body]
pub(crate) fn hex_decode(text: &str) -> (bytes: Option<Vec<u8>>)
    ensures
        bytes_view(bytes) == hex_decoded(text@),
{
    hex::decode(text).ok()
}

// ------------------------------------------------------------------------
// blake3
// ------------------------------------------------------------------------

/// The 32-byte BLAKE3 digest of the input.
pub uninterp spec fn blake3_digest(data: Seq<u8>) -> Seq<u8>;

/// `blake3::hash`: the BLAKE3 digest of the bytes.
#[verifier::external_body]
pub(crate) fn blake3_hash(data: &[u8]) -> (digest: [u8; 32])
    ensures
        digest@ == blake3_digest(data@),
{
    *blake3::hash(data).as_bytes()
}

/// The incremental BLAKE3 hasher.
#[verifier::external_type_specification]
#[verifier::external_body]
pub struct ExHasher(blake3::Hasher);

/// Everything a hasher has absorbed so far, in order.
pub uninterp spec fn hasher_input(hasher: blake3::Hasher) -> Seq<u8>;

/// `blake3::Hasher::new`: a hasher that has absorbed nothing.
#[verifier::external_body]
pub(crate) fn hasher_new() -> (hasher: blake3::Hasher)
    ensures
        hasher_input(hasher) == Seq::<u8>::empty(),
{
    blake3::Hasher::new()
}

/// `blake3::Hasher::update`: absorbs the bytes after everything absorbed before.
#[verifier::external_body]
pub(crate) fn hasher_update(hasher: &mut blake3::Hasher, data: &[u8])
    ensures
        hasher_input(*final(hasher)) == hasher_input(*old(hasher)) + data@,
{
    hasher.update(data);
}

/// `blake3::Hasher::finalize`: the digest of everything absorbed, the same as
/// `blake3::hash` of that input in one piece.
#[verifier::external_body]
pub(crate) fn hasher_finalize(hasher: &blake3::Hasher) -> (digest: [u8; 32])
    ensures
        digest@ == blake3_digest(hasher_input(*hasher)),
{
    *hasher.finalize().as_bytes()
}

// ------------------------------------------------------------------------
// ed25519-dalek
// ------------------------------------------------------------------------

/// The Ed25519 public key of a 32-byte secret key.
pub uninterp spec fn ed25519_public_of(secret: Seq<u8>) -> Seq<u8>;

/// The deterministic Ed25519 signature of a message under a secret key.
pub uninterp spec fn ed25519_signature(secret: Seq<u8>, message: Seq<u8>) -> Seq<u8>;

/// Whether 32 bytes decompress to an Ed25519 verifying key.
pub uninterp spec fn ed25519_key_valid(public: Seq<u8>) -> bool;

/// Whether a 64-byte signature verifies for the message under a valid key.
pub uninterp spec fn ed25519_accepts(public: Seq<u8>, message: Seq<u8>, signature: Seq<u8>) -> bool;

/// `SigningKey::from_bytes(..).verifying_key().to_bytes()`: the public key of a secret key.
#[verifier::external_body]
pub(crate) fn ed25519_public_key(secret: &[u8; 32]) -> (public: [u8; 32])
    ensures
        public@ == ed25519_public_of(secret@),
{
    ed25519_dalek::SigningKey::from_bytes(secret).verifying_key().to_bytes()
}

/// `SigningKey::sign`: the deterministic signature of the message, as its
/// 64 bytes.
#[verifier::external_body]
pub(crate) fn ed25519_sign(secret: &[u8; 32], message: &[u8]) -> (signature: Vec<u8>)
    ensures
        signature@ == ed25519_signature(secret@, message@),
        signature@.len() == 64,
{
    ed25519_dalek::SigningKey::from_bytes(secret).sign(message).to_bytes().to_vec()
}

/// `VerifyingKey::from_bytes`: whether the bytes decompress to a verifying key;
/// the public key of any secret key does.
#[verifier::external_body]
pub(crate) fn ed25519_key_is_valid(public: &[u8; 32]) -> (valid: bool)
    ensures
        valid == ed25519_key_valid(public@),
        forall|secret: Seq<u8>| secret.len() == 32 && public@ == #[trigger] ed25519_public_of(secret) ==> valid,
{
    ed25519_dalek::VerifyingKey::from_bytes(public).is_ok()
}

/// The order of the Ed25519 base point,
/// 2^252 + 27742317777372353535851937790883648493, as 32 little-endian bytes.
pub open spec fn ed25519_group_order() -> Seq<u8> {
    seq![
        0xedu8, 0xd3, 0xf5, 0x5c, 0x1a, 0x63, 0x12, 0x58, 0xd6, 0x9c, 0xf7, 0xa2, 0xde, 0xf9, 0xde, 0x14,
        0x00, 0x00, 0x00, 0x00, 0x00, 0x00, 0x00, 0x00, 0x00, 0x00, 0x00, 0x00, 0x00, 0x00, 0x00, 0x10,
    ]
}

/// Whether `a` is below `b`, both read as little-endian numbers of the same length.
pub open spec fn le_below(a: Seq<u8>, b: Seq<u8>) -> bool
    decreases a.len(),
{
    if a.len() == 0 {
        false
    } else if a.last() != b.last() {
        a.last() < b.last()
    } else {
        le_below(a.drop_last(), b.drop_last())
    }
}

/// Whether the scalar half (the last 32 bytes) of a 64-byte Ed25519
/// signature is canonical: below the group order.
pub open spec fn signature_scalar_canonical(signature: Seq<u8>) -> bool {
    le_below(signature.subrange(32, 64), ed25519_group_order())
}

/// `VerifyingKey::from_bytes`, `Signature::from_slice` (64 bytes) and
/// `Verifier::verify`: whether the signature verifies for the message under the
/// key. Verification first refuses a signature whose scalar is not canonical.
/// A signature made with a secret key verifies under that key's public key.
#[verifier::external_body]
pub(crate) fn ed25519_verify(public: &[u8; 32], message: &[u8], signature: &[u8]) -> (ok: bool)
    ensures
        ok == (ed25519_key_valid(public@) && signature@.len() == 64 && signature_scalar_canonical(signature@)
            && ed25519_accepts(public@, message@, signature@)),
        forall|secret: Seq<u8>|
            secret.len() == 32 && public@ == #[trigger] ed25519_public_of(secret) && signature@
                == ed25519_signature(secret, message@) ==> ok,
{
    match (ed25519_dalek::VerifyingKey::from_bytes(public), ed25519_dalek::Signature::from_slice(signature)) {
        (Ok(key), Ok(signature)) => key.verify(message, &signature).is_ok(),
        _ => false,
    }
}

// ------------------------------------------------------------------------
// x25519-dalek
// ------------------------------------------------------------------------

/// The X25519 public key of a 32-byte static secret.
pub uninterp spec fn x25519_public_of(secret: Seq<u8>) -> Seq<u8>;

/// The X25519 shared secret of a static secret and a peer's public key.
pub uninterp spec fn x25519_shared(secret: Seq<u8>, peer_public: Seq<u8>) -> Seq<u8>;

/// `PublicKey::from(&StaticSecret::from(..)).to_bytes()`: the public key of a secret.
#[verifier::external_body]
pub(crate) fn x25519_public_key(secret: &[u8; 32]) -> (public: [u8; 32])
    ensures
        public@ == x25519_public_of(secret@),
{
    x25519_dalek::PublicKey::from(&x25519_dalek::StaticSecret::from(*secret)).to_bytes()
}

/// `StaticSecret::diffie_hellman`: the shared secret with a peer. Both sides of
/// a Diffie-Hellman exchange obtain the same value: where the peer's public key
/// belongs to the secret `other`, the result is what `other` computes with this
/// side's public key.
#[verifier::external_body]
pub(crate) fn x25519_diffie_hellman(secret: &[u8; 32], peer_public: &[u8; 32]) -> (shared: [u8; 32])
    ensures
        shared@ == x25519_shared(secret@, peer_public@),
        forall|other: Seq<u8>|
            other.len() == 32 && peer_public@ == #[trigger] x25519_public_of(other) ==> shared@
                == x25519_shared(other, x25519_public_of(secret@)),
{
    x25519_dalek::StaticSecret::from(*secret).diffie_hellman(
        &x25519_dalek::PublicKey::from(*peer_public),
    ).to_bytes()
}

// ------------------------------------------------------------------------
// hkdf + sha2
// ------------------------------------------------------------------------

/// The 32-byte HKDF-SHA256 output for a salt, input key material and info.
pub uninterp spec fn hkdf_sha256(salt: Seq<u8>, ikm: Seq<u8>, info: Seq<u8>) -> Seq<u8>;

/// `Hkdf::<Sha256>::new(Some(salt), ikm).expand(info, ..)` into 32 bytes; the
/// expansion only fails for outputs longer than 255 digests, never here.
#[verifier::external_body]
pub(crate) fn hkdf_sha256_expand(salt: &[u8], ikm: &[u8], info: &[u8]) -> (okm: Option<[u8; 32]>)
    ensures
        okm.is_some(),
        okm.unwrap()@ == hkdf_sha256(salt@, ikm@, info@),
{
    let hk = hkdf::Hkdf::<sha2::Sha256>::new(Some(salt), ikm);
    let mut key = [0_u8; 32];
    match hk.expand(info, &mut key) {
        Ok(()) => Some(key),
        Err(_) => None,
    }
}

// ------------------------------------------------------------------------
// chacha20poly1305 (XChaCha20-Poly1305)
// ------------------------------------------------------------------------

/// Whether XChaCha20-Poly1305 accepts a message of this many bytes: fewer than
/// `u32::MAX` blocks of 64 bytes.
pub open spec fn aead_length_ok(len: int) -> bool {
    len / 64 < 0xffff_ffff
}

/// The XChaCha20-Poly1305 ciphertext (with its 16-byte tag appended).
pub uninterp spec fn xchacha_seal(key: Seq<u8>, nonce: Seq<u8>, message: Seq<u8>, aad: Seq<u8>) -> Seq<u8>;

/// The XChaCha20-Poly1305 opening of a ciphertext, `None` when authentication fails.
pub uninterp spec fn xchacha_open(key: Seq<u8>, nonce: Seq<u8>, ciphertext: Seq<u8>, aad: Seq<u8>) -> Option<Seq<u8>>;

/// `XChaCha20Poly1305::encrypt`: fails only for a message of `u32::MAX` blocks
/// or more; the ciphertext is 16 bytes longer than the message.
#[verifier::external_body]
pub(crate) fn xchacha_encrypt(key: &[u8; 32], nonce: &[u8; 24], message: &[u8], aad: &[u8]) -> (ciphertext: Option<Vec<u8>>)
    ensures
        ciphertext.is_some() == aead_length_ok(message@.len() as int),
        ciphertext.is_some() ==> ciphertext.unwrap()@ == xchacha_seal(key@, nonce@, message@, aad@),
        ciphertext.is_some() ==> ciphertext.unwrap()@.len() == message@.len() + 16,
{
    let cipher = chacha20poly1305::XChaCha20Poly1305::new(key.into());
    cipher.encrypt(chacha20poly1305::XNonce::from_slice(nonce), Payload { msg: message, aad }).ok()
}

/// `XChaCha20Poly1305::decrypt`: opens a ciphertext; what was sealed under the
/// same key, nonce and associated data opens to the original message.
#[verifier::external_body]
pub(crate) fn xchacha_decrypt(key: &[u8; 32], nonce: &[u8; 24], ciphertext: &[u8], aad: &[u8]) -> (message: Option<Vec<u8>>)
    ensures
        bytes_view(message) == xchacha_open(key@, nonce@, ciphertext@, aad@),
        forall|m: Seq<u8>|
            aead_length_ok(m.len() as int) && ciphertext@ == #[trigger] xchacha_seal(key@, nonce@, m, aad@)
                ==> bytes_view(message) == Some(m),
{
    let cipher = chacha20poly1305::XChaCha20Poly1305::new(key.into());
    cipher.decrypt(chacha20poly1305::XNonce::from_slice(nonce), Payload { msg: ciphertext, aad }).ok()
}

// ------------------------------------------------------------------------
// bincode
// ------------------------------------------------------------------------

/// bincode's encoding of a string: its UTF-8 length as a little-endian `u64`,
/// then its UTF-8 bytes.
pub open spec fn bincode_str(s: Seq<char>) -> Seq<u8> {
    spec_u64_to_le_bytes(encode_utf8(s).len() as u64) + encode_utf8(s)
}

/// bincode's encoding of the signed part of an event: three strings, the
/// creation time, the kind's variant index, the 24 nonce bytes, and the
/// ciphertext as a length-prefixed byte sequence.
pub open spec fn bincode_signable(
    id: Seq<char>,
    stream_id: Seq<char>,
    author: Seq<char>,
    created_at_ms: i64,
    kind_index: u32,
    nonce: Seq<u8>,
    ciphertext: Seq<u8>,
) -> Seq<u8> {
    bincode_str(id) + bincode_str(stream_id) + bincode_str(author) + spec_u64_to_le_bytes(
        created_at_ms as u64,
    ) + spec_u32_to_le_bytes(kind_index) + nonce + spec_u64_to_le_bytes(ciphertext.len() as u64)
        + ciphertext
}

/// `bincode::serialize` of the tuple of the signed event fields; serialising
/// strings, integers, a fixed array and a sized slice cannot fail.
#[verifier::external_body]
pub(crate) fn bincode_serialize_signable(
    id: &str,
    stream_id: &str,
    author: &str,
    created_at_ms: i64,
    kind_index: u32,
    nonce: &[u8; 24],
    ciphertext: &[u8],
) -> (bytes: Option<Vec<u8>>)
    ensures
        bytes.is_some(),
        bytes.unwrap()@ == bincode_signable(
            id@,
            stream_id@,
            author@,
            created_at_ms,
            kind_index,
            nonce@,
            ciphertext@,
        ),
{
    bincode::serialize(&(id, stream_id, author, created_at_ms, kind_index, nonce, ciphertext)).ok()
}

/// `bincode::serialize` of two 32-byte keys: the 64 bytes one after the other.
#[verifier::external_body]
pub(crate) fn bincode_serialize_key_pair(first: &[u8; 32], second: &[u8; 32]) -> (bytes: Option<Vec<u8>>)
    ensures
        bytes.is_some(),
        bytes.unwrap()@ == first@ + second@,
{
    bincode::serialize(&(first, second)).ok()
}

/// The text of the error `bincode::deserialize` reports for bytes too short
/// to hold two 32-byte keys.
pub uninterp spec fn bincode_key_pair_error(bytes: Seq<u8>) -> Seq<char>;

/// `bincode::deserialize` of two 32-byte keys: the first 64 bytes, any bytes
/// after them ignored; on fewer than 64 bytes it fails, reported here by the
/// text of its error.
#[verifier::external_body]
pub(crate) fn bincode_deserialize_key_pair(bytes: &[u8]) -> (pair: Result<([u8; 32], [u8; 32]), String>)
    ensures
        pair is Ok == (bytes@.len() >= 64),
        pair matches Ok(p) ==> p.0@ == bytes@.subrange(0, 32) && p.1@ == bytes@.subrange(32, 64),
        pair matches Err(m) ==> m@ == bincode_key_pair_error(bytes@),
{
    match bincode::deserialize::<([u8; 32], [u8; 32])>(bytes) {
        Ok(pair) => Ok(pair),
        Err(error) => Err(error.to_string()),
    }
}

// ------------------------------------------------------------------------
// base64
// ------------------------------------------------------------------------

/// The standard base64 text of bytes, without padding.
pub uninterp spec fn base64_text(bytes: Seq<u8>) -> Seq<char>;

/// What unpadded standard base64 text decodes to; `None` when it is not such text.
pub uninterp spec fn base64_decoded(text: Seq<char>) -> Option<Seq<u8>>;

/// `STANDARD_NO_PAD.encode`: the unpadded standard base64 text of the bytes.
#[verifier::external_body]
pub(crate) fn base64_encode(bytes: &[u8]) -> (text: String)
    ensures
        text@ == base64_text(bytes@),
{
    base64::engine::general_purpose::STANDARD_NO_PAD.encode(bytes)
}

/// The text of the error `STANDARD_NO_PAD.decode` reports for text that is
/// not unpadded standard base64.
pub uninterp spec fn base64_error(text: Seq<char>) -> Seq<char>;

/// `STANDARD_NO_PAD.decode`: decodes unpadded standard base64, or reports the
/// text of its error; the text of any bytes decodes back to those bytes.
#[verifier::external_body]
pub(crate) fn base64_decode(text: &str) -> (bytes: Result<Vec<u8>, String>)
    ensures
        bytes is Ok == base64_decoded(text@) is Some,
        bytes matches Ok(b) ==> base64_decoded(text@) == Some(b@),
        bytes matches Err(m) ==> m@ == base64_error(text@),
        forall|b: Seq<u8>| text@ == #[trigger] base64_text(b) ==> ok_bytes(bytes) == Some(b),
{
    match base64::engine::general_purpose::STANDARD_NO_PAD.decode(text) {
        Ok(bytes) => Ok(bytes),
        Err(error) => Err(error.to_string()),
    }
}

// ------------------------------------------------------------------------
// rand_core, ulid, std::time: results that rest on chance or the clock
// ------------------------------------------------------------------------

/// `OsRng::fill_bytes`: fresh random bytes; nothing is known of their values.
#[verifier::external_body]
pub(crate) fn random_bytes<const N: usize>() -> (bytes: [u8; N]) {
    let mut bytes = [0_u8; N];
    rand_core::OsRng.fill_bytes(&mut bytes);
    bytes
}

/// `ulid::Ulid::new().to_string()`: a new ULID from the clock and random bits,
/// as its 26-character Crockford base32 text.
#[verifier::external_body]
pub(crate) fn new_ulid() -> (id: String)
    ensures
        id@.len() == 26,
{
    ulid::Ulid::new().to_string()
}

/// `SystemTime::now().duration_since(UNIX_EPOCH)` in milliseconds, zero for a
/// clock set before the epoch; nothing is known of the value.
#[verifier::external_body]
pub(crate) fn unix_time_millis() -> (millis: u128) {
    std::time::SystemTime::now().duration_since(std::time::UNIX_EPOCH).unwrap_or_default().as_millis()
}

} // verus!
