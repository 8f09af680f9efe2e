//! The data the library exchanges and stores: peers, encrypted events and
//! their decrypted payloads, and file manifests.

use vstd::prelude::*;
use crate::error::NexusError;
use crate::identity::{DeviceId, PublicIdentity};
use crate::primitives::{bincode_serialize_signable, bincode_signable, unix_time_millis};
use crate::text::{lex_le, lemma_lex_le_first_difference, lemma_lex_le_total, push_char, str_le};

verus! {

/// The wire protocol version.
pub const PROTOCOL_VERSION: u16 = 1;

/// Files are split into chunks of this many bytes (256 KiB).
pub const FILE_CHUNK_SIZE: usize = 256 * 1024;

/// Where a peer can be reached.
#[derive(Debug, Clone, PartialEq, Eq)]
pub struct PeerEndpoint {
    pub host: String,
    pub port: u16,
}

impl PeerEndpoint {
    /// A copy whose contents are known to be equal.
    pub fn copied(&self) -> (c: PeerEndpoint)
        ensures
            c == *self,
    {
        PeerEndpoint { host: self.host.clone(), port: self.port }
    }
}

/// A known device: its identity, last endpoint, pairing state and when it was last seen.
#[derive(Debug, Clone, PartialEq, Eq)]
pub struct Peer {
    pub identity: PublicIdentity,
    pub endpoint: Option<PeerEndpoint>,
    pub paired: bool,
    pub last_seen_ms: i64,
}

impl Peer {
    /// A copy whose contents are known to be equal.
    pub fn copied(&self) -> (c: Peer)
        ensures
            c == *self,
    {
        Peer {
            identity: self.identity.copied(),
            endpoint: match &self.endpoint {
                Some(e) => Some(e.copied()),
                None => None,
            },
            paired: self.paired,
            last_seen_ms: self.last_seen_ms,
        }
    }
}

/// What an event carries.
#[derive(Debug, Clone, Copy, PartialEq, Eq, Structural)]
pub enum EventKind {
    Text,
    FileManifest,
    System,
}

/// The code under which a kind is stored and authenticated.
pub open spec fn kind_code(kind: EventKind) -> i32 {
    match kind {
        EventKind::Text => 1,
        EventKind::FileManifest => 2,
        EventKind::System => 3,
    }
}

/// The kind's position among the variants, as serialisers number them.
pub open spec fn kind_index(kind: EventKind) -> u32 {
    match kind {
        EventKind::Text => 0,
        EventKind::FileManifest => 1,
        EventKind::System => 2,
    }
}

/// The kind stored under a code, if any.
pub open spec fn kind_from_code(code: i32) -> Result<EventKind, NexusError> {
    if code == 1 {
        Ok(EventKind::Text)
    } else if code == 2 {
        Ok(EventKind::FileManifest)
    } else if code == 3 {
        Ok(EventKind::System)
    } else {
        Err(NexusError::UnknownEventKind(code))
    }
}

impl EventKind {
    /// The code under which the kind is stored and authenticated.
    pub fn code(&self) -> (code: i32)
        ensures
            code == kind_code(*self),
            *self == EventKind::Text ==> code == 1,
            *self == EventKind::FileManifest ==> code == 2,
            *self == EventKind::System ==> code == 3,
    {
        match self {
            EventKind::Text => 1,
            EventKind::FileManifest => 2,
            EventKind::System => 3,
        }
    }

    /// The kind's position among the variants: `Text` first, then
    /// `FileManifest`, then `System`.
    pub fn index(&self) -> (index: u32)
        ensures
            index == kind_index(*self),
            *self == EventKind::Text ==> index == 0,
            *self == EventKind::FileManifest ==> index == 1,
            *self == EventKind::System ==> index == 2,
    {
        match self {
            EventKind::Text => 0,
            EventKind::FileManifest => 1,
            EventKind::System => 2,
        }
    }

    /// The kind stored under a code; an unknown code is refused.
    pub fn from_code(code: i32) -> (kind: Result<EventKind, NexusError>)
        ensures
            kind == kind_from_code(code),
    {
        if code == 1 {
            Ok(EventKind::Text)
        } else if code == 2 {
            Ok(EventKind::FileManifest)
        } else if code == 3 {
            Ok(EventKind::System)
        } else {
            Err(NexusError::UnknownEventKind(code))
        }
    }
}

/// Every kind is read back from its own code, and only from it.
pub proof fn lemma_kind_code_roundtrip(kind: EventKind, code: i32)
    ensures
        kind_from_code(kind_code(kind)) == Ok::<EventKind, NexusError>(kind),
        kind_from_code(code) matches Ok(k) ==> kind_code(k) == code,
{
}

/// An encrypted, signed event of a conversation stream.
#[derive(Debug, Clone, PartialEq, Eq)]
pub struct EventEnvelope {
    pub id: String,
    pub stream_id: String,
    pub author: DeviceId,
    pub created_at_ms: i64,
    pub kind: EventKind,
    pub nonce: [u8; 24],
    pub ciphertext: Vec<u8>,
    pub signature: Vec<u8>,
}

/// The bytes an event's author signs: everything but the signature, encoded by bincode.
pub open spec fn signed_bytes(event: EventEnvelope) -> Seq<u8> {
    bincode_signable(
        event.id@,
        event.stream_id@,
        event.author.0@,
        event.created_at_ms,
        kind_index(event.kind),
        event.nonce@,
        event.ciphertext@,
    )
}

/// The signed bytes of every event are bincode's encoding of its signed
/// fields with the kind written as its serde variant position: `Text` 0,
/// `FileManifest` 1, `System` 2. Distinct kinds are written differently.
pub proof fn lemma_signed_kind_position(event: EventEnvelope)
    ensures
        event.kind == EventKind::Text ==> signed_bytes(event) == bincode_signable(
            event.id@, event.stream_id@, event.author.0@, event.created_at_ms, 0u32, event.nonce@, event.ciphertext@,
        ),
        event.kind == EventKind::FileManifest ==> signed_bytes(event) == bincode_signable(
            event.id@, event.stream_id@, event.author.0@, event.created_at_ms, 1u32, event.nonce@, event.ciphertext@,
        ),
        event.kind == EventKind::System ==> signed_bytes(event) == bincode_signable(
            event.id@, event.stream_id@, event.author.0@, event.created_at_ms, 2u32, event.nonce@, event.ciphertext@,
        ),
        forall|a: EventKind, b: EventKind| a != b ==> #[trigger] kind_index(a) != #[trigger] kind_index(b),
{
}

/// The kinds are stored and authenticated under their codes: `Text` 1,
/// `FileManifest` 2, `System` 3.
pub proof fn lemma_kind_codes()
    ensures
        kind_code(EventKind::Text) == 1,
        kind_code(EventKind::FileManifest) == 2,
        kind_code(EventKind::System) == 3,
{
}

/// The signed part of an event.
#[derive(Debug)]
pub struct SignableEvent<'a> {
    pub id: &'a str,
    pub stream_id: &'a str,
    pub author: &'a DeviceId,
    pub created_at_ms: i64,
    pub kind: EventKind,
    pub nonce: &'a [u8; 24],
    pub ciphertext: &'a [u8],
}

impl<'a> SignableEvent<'a> {
    /// The bincode encoding of the signed fields.
    pub fn to_bytes(&self) -> (bytes: Vec<u8>)
        ensures
            bytes@ == bincode_signable(
                self.id@,
                self.stream_id@,
                self.author.0@,
                self.created_at_ms,
                kind_index(self.kind),
                self.nonce@,
                self.ciphertext@,
            ),
    {
        let encoded = bincode_serialize_signable(
            self.id,
            self.stream_id,
            self.author.0.as_str(),
            self.created_at_ms,
            self.kind.index(),
            self.nonce,
            self.ciphertext,
        );
        match encoded {
            Some(bytes) => bytes,
            None => Vec::new(),
        }
    }
}

impl EventEnvelope {
    /// The signed part of the event.
    pub fn signable(&self) -> (signable: SignableEvent<'_>)
        ensures
            signable.id@ == self.id@,
            signable.stream_id@ == self.stream_id@,
            *signable.author == self.author,
            signable.created_at_ms == self.created_at_ms,
            signable.kind == self.kind,
            signable.nonce@ == self.nonce@,
            signable.ciphertext@ == self.ciphertext@,
    {
        SignableEvent {
            id: self.id.as_str(),
            stream_id: self.stream_id.as_str(),
            author: &self.author,
            created_at_ms: self.created_at_ms,
            kind: self.kind,
            nonce: &self.nonce,
            ciphertext: self.ciphertext.as_slice(),
        }
    }

    /// The bytes the author signs.
    pub fn signed_bytes(&self) -> (bytes: Vec<u8>)
        ensures
            bytes@ == signed_bytes(*self),
    {
        self.signable().to_bytes()
    }
}

/// A text message.
#[derive(Debug, Clone, PartialEq, Eq)]
pub struct TextPayload {
    pub text: String,
}

/// The description of a shared file: its chunks in order and its whole hash.
#[derive(Debug, Clone, PartialEq, Eq)]
pub struct FileManifest {
    pub id: String,
    pub name: String,
    pub media_type: String,
    pub size: u64,
    pub chunk_size: u32,
    pub chunks: Vec<ChunkDescriptor>,
    pub file_hash: String,
}

/// One chunk of a file: its position, BLAKE3 hex hash and size.
#[derive(Debug, Clone, PartialEq, Eq)]
pub struct ChunkDescriptor {
    pub index: u32,
    pub hash: String,
    pub size: u32,
}

/// What an event holds once decrypted.
#[derive(Debug, Clone, PartialEq, Eq)]
pub enum DecryptedPayload {
    Text(TextPayload),
    FileManifest(FileManifest),
    System(String),
}

/// A decrypted event as a conversation shows it.
#[derive(Debug, Clone, PartialEq, Eq)]
pub struct ChatItem {
    pub event_id: String,
    pub author: DeviceId,
    pub created_at_ms: i64,
    pub payload: DecryptedPayload,
}

impl ChatItem {
    /// The conversation entry for an event and its decrypted payload.
    pub fn for_event(event: &EventEnvelope, payload: DecryptedPayload) -> (item: ChatItem)
        ensures
            item.event_id@ == event.id@,
            item.author == event.author,
            item.created_at_ms == event.created_at_ms,
            item.payload == payload,
    {
        ChatItem {
            event_id: event.id.clone(),
            author: event.author.copied(),
            created_at_ms: event.created_at_ms,
            payload,
        }
    }
}

/// The direct stream of two devices: `dm:` and the two ids in order, joined by `:`.
pub open spec fn direct_stream_for(a: Seq<char>, b: Seq<char>) -> Seq<char> {
    if lex_le(a, b) {
        seq!['d', 'm', ':'] + a + seq![':'] + b
    } else {
        seq!['d', 'm', ':'] + b + seq![':'] + a
    }
}

/// The id of the direct conversation stream between two devices.
pub fn direct_stream_id(a: &DeviceId, b: &DeviceId) -> (stream: String)
    ensures
        stream@ == direct_stream_for(a.0@, b.0@),
{
    let (first, second) = if str_le(a.0.as_str(), b.0.as_str()) {
        (a, b)
    } else {
        (b, a)
    };
    let mut stream = String::new();
    push_char(&mut stream, 'd');
    push_char(&mut stream, 'm');
    push_char(&mut stream, ':');
    stream.append(first.0.as_str());
    push_char(&mut stream, ':');
    stream.append(second.0.as_str());
    assert(stream@ =~= direct_stream_for(a.0@, b.0@));
    stream
}

/// Both devices of a direct conversation compute the same stream id.
pub proof fn lemma_direct_stream_symmetric(a: Seq<char>, b: Seq<char>)
    ensures
        direct_stream_for(a, b) == direct_stream_for(b, a),
{
    lemma_lex_le_total(a, b);
}

/// The stream id names the two device ids in `String` order: where they first
/// differ, the id with the smaller character comes first, and an id that is a
/// prefix of the other comes first.
pub proof fn lemma_direct_stream_sorted(a: Seq<char>, b: Seq<char>, i: int)
    requires
        0 <= i <= a.len(),
        i <= b.len(),
        forall|j: int| 0 <= j < i ==> a[j] == b[j],
        i == a.len() || (i < b.len() && a[i] < b[i]),
    ensures
        direct_stream_for(a, b) == seq!['d', 'm', ':'] + a + seq![':'] + b,
        direct_stream_for(b, a) == seq!['d', 'm', ':'] + a + seq![':'] + b,
{
    lemma_lex_le_first_difference(a, b, i);
    lemma_direct_stream_symmetric(a, b);
}

/// Milliseconds since the Unix epoch, by the system clock.
pub fn now_ms() -> i64 {
    let millis = unix_time_millis();
    millis as i64
}

} // verus!
