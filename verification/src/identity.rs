//! Device identities: the public half that peers exchange, and the local
//! identity that also holds the two secret keys.

use vstd::prelude::*;
use vstd::slice::slice_subrange;
use crate::error::NexusError;
use crate::primitives::{
    blake3_digest, blake3_hash, ed25519_accepts, ed25519_key_is_valid, ed25519_key_valid,
    ed25519_public_key, ed25519_public_of, ed25519_sign, ed25519_signature, ed25519_verify,
    hex_encode, random_bytes, base64_decode, base64_decoded, base64_encode, base64_text,
    bincode_deserialize_key_pair, bincode_key_pair_error, bincode_serialize_key_pair, base64_error,
    ed25519_group_order, le_below, signature_scalar_canonical, x25519_diffie_hellman, x25519_public_key, x25519_public_of,
    x25519_shared,
};
use crate::text::{hex_lower, is_blank, all_white_space, lemma_hex_lower_len};

verus! {

/// A device id: 32 lowercase hex digits of the BLAKE3 hash of the device's
/// Ed25519 public key.
#[derive(Debug, Clone, Hash, PartialEq, Eq, PartialOrd, Ord)]
pub struct DeviceId(pub String);

impl DeviceId {
    /// A copy whose contents are known to be equal.
    pub fn copied(&self) -> (c: DeviceId)
        ensures
            c == *self,
    {
        DeviceId(self.0.clone())
    }

    /// Whether two ids are the same text.
    pub fn same(&self, other: &DeviceId) -> (eq: bool)
        ensures
            eq == (self.0@ == other.0@),
    {
        self.0 == other.0
    }
}

/// What a device announces about itself.
#[derive(Debug, Clone, PartialEq, Eq)]
pub struct PublicIdentity {
    pub device_id: DeviceId,
    pub display_name: String,
    pub signing_public_key: [u8; 32],
    pub exchange_public_key: [u8; 32],
}

/// Two public identities with equal fields.
pub open spec fn same_public_identity(a: PublicIdentity, b: PublicIdentity) -> bool {
    &&& a.device_id.0@ == b.device_id.0@
    &&& a.display_name@ == b.display_name@
    &&& a.signing_public_key@ == b.signing_public_key@
    &&& a.exchange_public_key@ == b.exchange_public_key@
}

fn same_key(a: &[u8; 32], b: &[u8; 32]) -> (eq: bool)
    ensures
        eq == (a@ == b@),
{
    let mut i: usize = 0;
    while i < 32
        invariant
            i <= 32,
            forall|k: int| 0 <= k < i ==> a@[k] == b@[k],
        decreases 32 - i,
    {
        if a[i] != b[i] {
            return false;
        }
        i = i + 1;
    }
    assert(a@ =~= b@);
    true
}

impl PublicIdentity {
    /// A copy whose contents are known to be equal.
    pub fn copied(&self) -> (c: PublicIdentity)
        ensures
            c == *self,
    {
        PublicIdentity {
            device_id: self.device_id.copied(),
            display_name: self.display_name.clone(),
            signing_public_key: self.signing_public_key,
            exchange_public_key: self.exchange_public_key,
        }
    }

    /// Whether two public identities have equal fields.
    pub fn same(&self, other: &PublicIdentity) -> (eq: bool)
        ensures
            eq == same_public_identity(*self, *other),
    {
        self.device_id.same(&other.device_id) && self.display_name == other.display_name
            && same_key(&self.signing_public_key, &other.signing_public_key) && same_key(
            &self.exchange_public_key,
            &other.exchange_public_key,
        )
    }
}

/// The device id that belongs to an Ed25519 public key: the first 16 bytes of
/// its BLAKE3 hash in lowercase hex.
pub open spec fn device_id_for_key(signing_public_key: Seq<u8>) -> Seq<char> {
    hex_lower(blake3_digest(signing_public_key).subrange(0, 16))
}

/// The device id of an Ed25519 public key.
pub fn device_id_from_key(signing_public_key: &[u8; 32]) -> (id: DeviceId)
    ensures
        id.0@ == device_id_for_key(signing_public_key@),
        id.0@.len() == 32,
{
    let digest = blake3_hash(signing_public_key.as_slice());
    let prefix = slice_subrange(digest.as_slice(), 0, 16);
    proof {
        lemma_hex_lower_len(prefix@);
    }
    DeviceId(hex_encode(prefix))
}

/// Whether the public identity's keys and device id are those of the two secrets.
pub open spec fn keys_match(public: PublicIdentity, signing_secret: Seq<u8>, exchange_secret: Seq<u8>) -> bool {
    &&& public.signing_public_key@ == ed25519_public_of(signing_secret)
    &&& public.exchange_public_key@ == x25519_public_of(exchange_secret)
    &&& public.device_id.0@ == device_id_for_key(public.signing_public_key@)
}

/// The local device identity: its public identity and the Ed25519 and X25519
/// secret keys the public keys derive from.
pub struct Identity {
    public: PublicIdentity,
    signing_secret: [u8; 32],
    exchange_secret: [u8; 32],
}

impl Identity {
    /// The public identity.
    pub closed spec fn public_view(&self) -> PublicIdentity {
        self.public
    }

    /// The Ed25519 secret key.
    pub closed spec fn signing_secret_view(&self) -> Seq<u8> {
        self.signing_secret@
    }

    /// The X25519 secret key.
    pub closed spec fn exchange_secret_view(&self) -> Seq<u8> {
        self.exchange_secret@
    }

    #[verifier::type_invariant]
    spec fn keys_derive_from_secrets(self) -> bool {
        &&& keys_match(self.public, self.signing_secret@, self.exchange_secret@)
        &&& self.signing_secret@.len() == 32
        &&& self.exchange_secret@.len() == 32
    }

    /// The identity whose keys derive from the two secrets, under a display name.
    pub fn from_secrets(display_name: &str, signing_secret: [u8; 32], exchange_secret: [u8; 32]) -> (identity: Identity)
        ensures
            identity.public_view().display_name@ == display_name@,
            identity.signing_secret_view() == signing_secret@,
            identity.exchange_secret_view() == exchange_secret@,
            keys_match(identity.public_view(), signing_secret@, exchange_secret@),
    {
        let signing_public_key = ed25519_public_key(&signing_secret);
        let exchange_public_key = x25519_public_key(&exchange_secret);
        let public = PublicIdentity {
            device_id: device_id_from_key(&signing_public_key),
            display_name: display_name.to_owned(),
            signing_public_key,
            exchange_public_key,
        };
        Identity { public, signing_secret, exchange_secret }
    }

    /// A new identity with fresh random secret keys.
    pub fn generate(display_name: &str) -> (identity: Identity)
        ensures
            identity.public_view().display_name@ == display_name@,
            keys_match(identity.public_view(), identity.signing_secret_view(), identity.exchange_secret_view()),
    {
        let signing_secret: [u8; 32] = random_bytes();
        let exchange_secret: [u8; 32] = random_bytes();
        Identity::from_secrets(display_name, signing_secret, exchange_secret)
    }

    /// The public identity; its keys and device id derive from the secrets.
    pub fn public(&self) -> (public: &PublicIdentity)
        ensures
            *public == self.public_view(),
            keys_match(*public, self.signing_secret_view(), self.exchange_secret_view()),
            self.signing_secret_view().len() == 32,
            self.exchange_secret_view().len() == 32,
    {
        proof {
            use_type_invariant(self);
        }
        &self.public
    }

    /// The Ed25519 signature of the bytes.
    pub fn sign(&self, bytes: &[u8]) -> (signature: Vec<u8>)
        ensures
            signature@ == ed25519_signature(self.signing_secret_view(), bytes@),
            signature@.len() == 64,
    {
        ed25519_sign(&self.signing_secret, bytes)
    }

    /// The X25519 shared secret with a peer's exchange key. Where that key
    /// belongs to the secret `other`, it is what `other` computes with this
    /// identity's exchange key.
    pub fn shared_secret(&self, peer_exchange_key: &[u8; 32]) -> (shared: [u8; 32])
        ensures
            shared@ == x25519_shared(self.exchange_secret_view(), peer_exchange_key@),
            forall|other: Seq<u8>|
                other.len() == 32 && peer_exchange_key@ == #[trigger] x25519_public_of(other)
                    ==> shared@ == x25519_shared(other, self.public_view().exchange_public_key@),
    {
        proof {
            use_type_invariant(self);
        }
        x25519_diffie_hellman(&self.exchange_secret, peer_exchange_key)
    }
}

/// How the two secret keys of an identity are stored: the 64 key bytes in
/// unpadded standard base64.
pub open spec fn secret_text(signing_secret: Seq<u8>, exchange_secret: Seq<u8>) -> Seq<char> {
    base64_text(signing_secret + exchange_secret)
}

impl Identity {
    /// The stored form of the identity's secret keys.
    pub fn encode_secrets(&self) -> (text: String)
        ensures
            text@ == secret_text(self.signing_secret_view(), self.exchange_secret_view()),
    {
        let bytes = match bincode_serialize_key_pair(&self.signing_secret, &self.exchange_secret) {
            Some(b) => b,
            None => Vec::new(),
        };
        base64_encode(bytes.as_slice())
    }

    /// The identity whose secret keys are stored in the text, under a display
    /// name. Text that is not base64 or holds fewer than 64 bytes is refused;
    /// the stored form of two keys restores exactly those keys.
    pub fn restore(display_name: &str, secrets: &str) -> (identity: Result<Identity, NexusError>)
        ensures
            match base64_decoded(secrets@) {
                None => identity matches Err(NexusError::SecretNotBase64(m)) && m@ == base64_error(secrets@),
                Some(b) => if b.len() < 64 {
                    identity matches Err(NexusError::SecretTruncated(m)) && m@ == bincode_key_pair_error(b)
                } else {
                    &&& identity matches Ok(i)
                    &&& identity->Ok_0.signing_secret_view() == b.subrange(0, 32)
                    &&& identity->Ok_0.exchange_secret_view() == b.subrange(32, 64)
                    &&& identity->Ok_0.public_view().display_name@ == display_name@
                    &&& keys_match(
                        identity->Ok_0.public_view(),
                        identity->Ok_0.signing_secret_view(),
                        identity->Ok_0.exchange_secret_view(),
                    )
                },
            },
            forall|signing: Seq<u8>, exchange: Seq<u8>|
                signing.len() == 32 && exchange.len() == 32 && secrets@ == #[trigger] secret_text(signing, exchange)
                    ==> (identity is Ok && identity->Ok_0.signing_secret_view() == signing
                    && identity->Ok_0.exchange_secret_view() == exchange),
    {
        let bytes = match base64_decode(secrets) {
            Ok(b) => b,
            Err(m) => return Err(NexusError::SecretNotBase64(m)),
        };
        let (signing_secret, exchange_secret) = match bincode_deserialize_key_pair(bytes.as_slice()) {
            Ok(pair) => pair,
            Err(m) => return Err(NexusError::SecretTruncated(m)),
        };
        proof {
            assert forall|signing: Seq<u8>, exchange: Seq<u8>|
                signing.len() == 32 && exchange.len() == 32 && secrets@ == #[trigger] secret_text(signing, exchange)
                    implies signing_secret@ == signing && exchange_secret@ == exchange by {
                assert(bytes@ == signing + exchange);
                assert((signing + exchange).subrange(0, 32) =~= signing);
                assert((signing + exchange).subrange(32, 64) =~= exchange);
            }
        }
        Ok(Identity::from_secrets(display_name, signing_secret, exchange_secret))
    }
}

/// What `verify` decides for a key, message and signature, in the order the
/// checks are made: the key, the signature's length, its scalar, and the
/// verification equation.
pub open spec fn verify_result(public: PublicIdentity, message: Seq<u8>, signature: Seq<u8>) -> Result<(), NexusError> {
    if !ed25519_key_valid(public.signing_public_key@) {
        Err(NexusError::InvalidSigningKey)
    } else if signature.len() != 64 {
        Err(NexusError::SignatureLength)
    } else if !signature_scalar_canonical(signature) {
        Err(NexusError::SignatureScalar)
    } else if ed25519_accepts(public.signing_public_key@, message, signature) {
        Ok(())
    } else {
        Err(NexusError::InvalidSignature)
    }
}

/// Whether the scalar half of a 64-byte signature is below the group order.
fn scalar_is_canonical(signature: &[u8]) -> (canonical: bool)
    requires
        signature@.len() == 64,
    ensures
        canonical == signature_scalar_canonical(signature@),
{
    let order: [u8; 32] = [
        0xed, 0xd3, 0xf5, 0x5c, 0x1a, 0x63, 0x12, 0x58, 0xd6, 0x9c, 0xf7, 0xa2, 0xde, 0xf9, 0xde, 0x14,
        0x00, 0x00, 0x00, 0x00, 0x00, 0x00, 0x00, 0x00, 0x00, 0x00, 0x00, 0x00, 0x00, 0x00, 0x00, 0x10,
    ];
    assert(order@ =~= ed25519_group_order());
    let ghost scalar = signature@.subrange(32, 64);
    assert(order@ =~= order@.subrange(0, 32));
    let mut i: usize = 32;
    while i > 0
        invariant
            i <= 32,
            signature@.len() == 64,
            order@ == ed25519_group_order(),
            scalar == signature@.subrange(32, 64),
            le_below(scalar, order@) == le_below(signature@.subrange(32, 32 + i as int), order@.subrange(0, i as int)),
        decreases i,
    {
        let a = signature[31 + i];
        let b = order[i - 1];
        let ghost x = signature@.subrange(32, 32 + i as int);
        let ghost y = order@.subrange(0, i as int);
        assert(x.last() == a && y.last() == b);
        if a != b {
            return a < b;
        }
        assert(x.drop_last() =~= signature@.subrange(32, 32 + i - 1));
        assert(y.drop_last() =~= order@.subrange(0, i - 1));
        i = i - 1;
    }
    false
}

/// Checks an Ed25519 signature against the identity's signing key. A signature
/// made with the secret key behind that public key is accepted.
pub fn verify(public: &PublicIdentity, message: &[u8], signature: &[u8]) -> (result: Result<(), NexusError>)
    ensures
        result == verify_result(*public, message@, signature@),
        forall|secret: Seq<u8>|
            secret.len() == 32 && public.signing_public_key@ == #[trigger] ed25519_public_of(secret)
                && signature@ == ed25519_signature(secret, message@) ==> result is Ok,
{
    if !ed25519_key_is_valid(&public.signing_public_key) {
        return Err(NexusError::InvalidSigningKey);
    }
    if ed25519_verify(&public.signing_public_key, message, signature) {
        return Ok(());
    }
    if signature.len() != 64 {
        return Err(NexusError::SignatureLength);
    }
    if !scalar_is_canonical(signature) {
        return Err(NexusError::SignatureScalar);
    }
    Err(NexusError::InvalidSignature)
}

/// What `validate_public_identity` decides.
pub open spec fn validation_result(public: PublicIdentity) -> Result<(), NexusError> {
    if !ed25519_key_valid(public.signing_public_key@) {
        Err(NexusError::InvalidSigningKey)
    } else if public.device_id.0@ != device_id_for_key(public.signing_public_key@) {
        Err(NexusError::DeviceIdMismatch)
    } else if all_white_space(public.display_name@) {
        Err(NexusError::EmptyDisplayName)
    } else {
        Ok(())
    }
}

/// Checks an announced identity before trusting it: a valid signing key, the
/// device id recomputed from that key, and a display name that is not blank.
pub fn validate_public_identity(public: &PublicIdentity) -> (result: Result<(), NexusError>)
    ensures
        result == validation_result(*public),
{
    if !ed25519_key_is_valid(&public.signing_public_key) {
        return Err(NexusError::InvalidSigningKey);
    }
    let expected = device_id_from_key(&public.signing_public_key);
    if !(public.device_id.0 == expected.0) {
        return Err(NexusError::DeviceIdMismatch);
    }
    if is_blank(public.display_name.as_str()) {
        return Err(NexusError::EmptyDisplayName);
    }
    Ok(())
}

} // verus!
