//! The failures the library reports, each with the message a user sees.

use vstd::prelude::*;
use crate::identity::DeviceId;
use crate::text::{push_decimal_i64, decimal_int};

verus! {

/// Why an operation of the library was refused.
#[derive(Debug, Clone, PartialEq, Eq)]
pub enum NexusError {
    /// A stored event kind code that names no kind.
    UnknownEventKind(i32),
    /// Key derivation produced no key.
    KeyDerivation,
    /// An event payload could not be encrypted.
    EventEncryption,
    /// A file chunk could not be encrypted.
    ChunkEncryption,
    /// The event claims another author than the identity it is checked against.
    AuthorMismatch,
    /// A signing public key that is not a valid Ed25519 point.
    InvalidSigningKey,
    /// A signature that is not 64 bytes long.
    SignatureLength,
    /// A signature whose scalar half is not below the group order.
    SignatureScalar,
    /// A signature that does not verify for the message under the key.
    InvalidSignature,
    /// An event's ciphertext failed authentication.
    EventAuthentication,
    /// A chunk's ciphertext failed authentication.
    ChunkAuthentication,
    /// A device id that is not derived from its signing key.
    DeviceIdMismatch,
    /// A display name made of white space only.
    EmptyDisplayName,
    /// A peer the store does not know.
    UnknownPeer(DeviceId),
    /// A peer without an endpoint.
    PeerOffline(DeviceId),
    /// A peer that is not paired.
    PeerNotPaired(DeviceId),
    /// A request from a device the store does not know.
    UnknownSender,
    /// A request from a device that is not paired.
    SenderNotPaired,
    /// A paired device presents another identity than the stored one.
    PairedIdentityChanged,
    /// A message with another protocol version.
    UnsupportedProtocolVersion,
    /// A response signed off by another device than the one asked.
    ResponseIdentityMismatch,
    /// The peer answered with an error message.
    PeerReported(String),
    /// A pushed event authored by someone other than the sender.
    ForwardedEvent,
    /// A sync request for a stream that is not the pair's direct stream.
    InvalidStreamId,
    /// A file manifest the store does not know.
    UnknownManifest,
    /// A chunk hash that the manifest does not list.
    ChunkNotInManifest,
    /// A response kind sent as a request.
    ResponseAsRequest,
    /// A device name made of white space only.
    DeviceNameEmpty,
    /// A device name longer than 40 characters.
    DeviceNameTooLong,
    /// The peer declined pairing.
    PairRejected,
    /// The peer answered a pair request with something else.
    UnexpectedPairResponse,
    /// The peer did not acknowledge a message.
    MessageNotAcknowledged,
    /// The peer did not acknowledge a file manifest.
    ManifestNotAcknowledged,
    /// The peer did not acknowledge a batch of chunks.
    ChunksNotAcknowledged,
    /// The peer answered a sync request with something else.
    UnexpectedSyncResponse,
    /// The peer answered a chunk request with something else.
    UnexpectedChunkResponse,
    /// The peer answered a chunk request for another manifest.
    ManifestResponseMismatch,
    /// The peer answered a chunk request with no chunks.
    NoChunksReturned,
    /// A frame to send exceeds the frame limit.
    OutgoingFrameTooLarge,
    /// A received frame exceeds the frame limit.
    IncomingFrameTooLarge,
    /// A frame to send on a request exceeds the frame limit.
    WireFrameTooLarge,
    /// A response frame exceeds the frame limit.
    PeerFrameTooLarge,
    /// A file is materialized before all of its chunks arrived.
    FileIncomplete,
    /// A stored chunk has another size than its manifest entry.
    StoredChunkSizeMismatch,
    /// The assembled file does not hash to the manifest's file hash.
    AssembledHashMismatch,
    /// Bytes do not hash to the chunk hash they are stored under.
    ChunkHashMismatch,
    /// A command lacks a required argument.
    Missing(String),
    /// A command to remember a peer lacks its identity.
    MissingPeerIdentity,
    /// A command to remember a peer lacks a host.
    MissingPeerHost,
    /// A command to remember a peer lacks a port.
    MissingPeerPort,
    /// A command with an operation the library does not know.
    UnknownOperation(String),
    /// A stored identity secret that is not unpadded base64, with the
    /// decoder's description of the fault.
    SecretNotBase64(String),
    /// A stored identity secret shorter than the two keys, with the
    /// deserialiser's description of the fault.
    SecretTruncated(String),
}

/// The message shown for an error.
pub open spec fn error_message(e: NexusError) -> Seq<char> {
    match e {
        NexusError::UnknownEventKind(v) => "unknown event kind "@ + decimal_int(v as int),
        NexusError::KeyDerivation => "HKDF output length is invalid"@,
        NexusError::EventEncryption => "event encryption failed"@,
        NexusError::ChunkEncryption => "chunk encryption failed"@,
        NexusError::AuthorMismatch => "event author mismatch"@,
        NexusError::InvalidSigningKey => "signature error: Cannot decompress Edwards point"@,
        NexusError::SignatureLength => "signature error"@,
        NexusError::SignatureScalar => "signature error: Cannot use scalar with high-bit set"@,
        NexusError::InvalidSignature => "signature error: Verification equation was not satisfied"@,
        NexusError::EventAuthentication => "event authentication failed"@,
        NexusError::ChunkAuthentication => "chunk authentication failed"@,
        NexusError::DeviceIdMismatch => "device id does not match signing key"@,
        NexusError::EmptyDisplayName => "empty display name"@,
        NexusError::UnknownPeer(id) => "unknown peer "@ + id.0@,
        NexusError::PeerOffline(id) => "peer "@ + id.0@ + " is offline"@,
        NexusError::PeerNotPaired(id) => "peer "@ + id.0@ + " is not paired"@,
        NexusError::UnknownSender => "unknown sender"@,
        NexusError::SenderNotPaired => "sender is not paired"@,
        NexusError::PairedIdentityChanged => "paired identity changed"@,
        NexusError::UnsupportedProtocolVersion => "unsupported protocol version"@,
        NexusError::ResponseIdentityMismatch => "response identity mismatch"@,
        NexusError::PeerReported(m) => m@,
        NexusError::ForwardedEvent => "forwarded events are not accepted"@,
        NexusError::InvalidStreamId => "invalid stream id"@,
        NexusError::UnknownManifest => "unknown manifest"@,
        NexusError::ChunkNotInManifest => "chunk is not part of manifest"@,
        NexusError::ResponseAsRequest => "response message used as a request"@,
        NexusError::DeviceNameEmpty => "device name cannot be empty"@,
        NexusError::DeviceNameTooLong => "device name is too long"@,
        NexusError::PairRejected => "pair request rejected"@,
        NexusError::UnexpectedPairResponse => "unexpected pair response"@,
        NexusError::MessageNotAcknowledged => "message was not acknowledged"@,
        NexusError::ManifestNotAcknowledged => "file manifest was not acknowledged"@,
        NexusError::ChunksNotAcknowledged => "file chunks were not acknowledged"@,
        NexusError::UnexpectedSyncResponse => "unexpected sync response"@,
        NexusError::UnexpectedChunkResponse => "unexpected chunk response"@,
        NexusError::ManifestResponseMismatch => "manifest response mismatch"@,
        NexusError::NoChunksReturned => "peer returned no chunks"@,
        NexusError::OutgoingFrameTooLarge => "outgoing frame too large"@,
        NexusError::IncomingFrameTooLarge => "incoming frame too large"@,
        NexusError::WireFrameTooLarge => "wire frame too large"@,
        NexusError::PeerFrameTooLarge => "peer frame too large"@,
        NexusError::FileIncomplete => "file is not complete"@,
        NexusError::StoredChunkSizeMismatch => "stored chunk size mismatch"@,
        NexusError::AssembledHashMismatch => "assembled file hash mismatch"@,
        NexusError::ChunkHashMismatch => "chunk hash mismatch"@,
        NexusError::Missing(name) => "missing "@ + name@,
        NexusError::MissingPeerIdentity => "missing peer identity"@,
        NexusError::MissingPeerHost => "missing peer host"@,
        NexusError::MissingPeerPort => "missing peer port"@,
        NexusError::UnknownOperation(op) => "unknown operation "@ + op@,
        NexusError::SecretNotBase64(m) => m@,
        NexusError::SecretTruncated(m) => m@,
    }
}

impl NexusError {
    /// The message shown for the error.
    pub fn message(&self) -> (text: String)
        ensures
            text@ == error_message(*self),
    {
        match self {
            NexusError::UnknownEventKind(v) => {
                let mut s = String::from_str("unknown event kind ");
                push_decimal_i64(&mut s, *v as i64);
                s
            },
            NexusError::KeyDerivation => String::from_str("HKDF output length is invalid"),
            NexusError::EventEncryption => String::from_str("event encryption failed"),
            NexusError::ChunkEncryption => String::from_str("chunk encryption failed"),
            NexusError::AuthorMismatch => String::from_str("event author mismatch"),
            NexusError::InvalidSigningKey => String::from_str("signature error: Cannot decompress Edwards point"),
            NexusError::SignatureLength => String::from_str("signature error"),
            NexusError::SignatureScalar => String::from_str("signature error: Cannot use scalar with high-bit set"),
            NexusError::InvalidSignature => String::from_str("signature error: Verification equation was not satisfied"),
            NexusError::EventAuthentication => String::from_str("event authentication failed"),
            NexusError::ChunkAuthentication => String::from_str("chunk authentication failed"),
            NexusError::DeviceIdMismatch => String::from_str("device id does not match signing key"),
            NexusError::EmptyDisplayName => String::from_str("empty display name"),
            NexusError::UnknownPeer(id) => String::from_str("unknown peer ").concat(id.0.as_str()),
            NexusError::PeerOffline(id) => String::from_str("peer ").concat(id.0.as_str()).concat(" is offline"),
            NexusError::PeerNotPaired(id) => String::from_str("peer ").concat(id.0.as_str()).concat(" is not paired"),
            NexusError::UnknownSender => String::from_str("unknown sender"),
            NexusError::SenderNotPaired => String::from_str("sender is not paired"),
            NexusError::PairedIdentityChanged => String::from_str("paired identity changed"),
            NexusError::UnsupportedProtocolVersion => String::from_str("unsupported protocol version"),
            NexusError::ResponseIdentityMismatch => String::from_str("response identity mismatch"),
            NexusError::PeerReported(m) => m.clone(),
            NexusError::ForwardedEvent => String::from_str("forwarded events are not accepted"),
            NexusError::InvalidStreamId => String::from_str("invalid stream id"),
            NexusError::UnknownManifest => String::from_str("unknown manifest"),
            NexusError::ChunkNotInManifest => String::from_str("chunk is not part of manifest"),
            NexusError::ResponseAsRequest => String::from_str("response message used as a request"),
            NexusError::DeviceNameEmpty => String::from_str("device name cannot be empty"),
            NexusError::DeviceNameTooLong => String::from_str("device name is too long"),
            NexusError::PairRejected => String::from_str("pair request rejected"),
            NexusError::UnexpectedPairResponse => String::from_str("unexpected pair response"),
            NexusError::MessageNotAcknowledged => String::from_str("message was not acknowledged"),
            NexusError::ManifestNotAcknowledged => String::from_str("file manifest was not acknowledged"),
            NexusError::ChunksNotAcknowledged => String::from_str("file chunks were not acknowledged"),
            NexusError::UnexpectedSyncResponse => String::from_str("unexpected sync response"),
            NexusError::UnexpectedChunkResponse => String::from_str("unexpected chunk response"),
            NexusError::ManifestResponseMismatch => String::from_str("manifest response mismatch"),
            NexusError::NoChunksReturned => String::from_str("peer returned no chunks"),
            NexusError::OutgoingFrameTooLarge => String::from_str("outgoing frame too large"),
            NexusError::IncomingFrameTooLarge => String::from_str("incoming frame too large"),
            NexusError::WireFrameTooLarge => String::from_str("wire frame too large"),
            NexusError::PeerFrameTooLarge => String::from_str("peer frame too large"),
            NexusError::FileIncomplete => String::from_str("file is not complete"),
            NexusError::StoredChunkSizeMismatch => String::from_str("stored chunk size mismatch"),
            NexusError::AssembledHashMismatch => String::from_str("assembled file hash mismatch"),
            NexusError::ChunkHashMismatch => String::from_str("chunk hash mismatch"),
            NexusError::Missing(name) => String::from_str("missing ").concat(name.as_str()),
            NexusError::MissingPeerIdentity => String::from_str("missing peer identity"),
            NexusError::MissingPeerHost => String::from_str("missing peer host"),
            NexusError::MissingPeerPort => String::from_str("missing peer port"),
            NexusError::UnknownOperation(op) => String::from_str("unknown operation ").concat(op.as_str()),
            NexusError::SecretNotBase64(m) => m.clone(),
            NexusError::SecretTruncated(m) => m.clone(),
        }
    }
}

} // verus!
