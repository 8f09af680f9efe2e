//! The messages two nodes exchange, and their framing on a byte stream: every
//! message travels as a big-endian `u32` length followed by that many bytes of
//! encoded envelope, and no frame may exceed 8 MiB.

use vstd::prelude::*;
use crate::identity::PublicIdentity;
use crate::model::EventEnvelope;

verus! {

/// The largest encoded envelope a frame may carry (8 MiB).
pub const MAX_FRAME: usize = 8 * 1024 * 1024;

/// A message with its protocol version and the sender's public identity.
#[derive(Debug, Clone)]
pub struct WireEnvelope {
    pub version: u16,
    pub sender: PublicIdentity,
    pub body: WireMessage,
}

/// The requests and responses of the protocol.
#[derive(Debug, Clone)]
pub enum WireMessage {
    Hello,
    PairRequest { pairing_nonce: String },
    PairResponse { accepted: bool },
    PushEvent { event: EventEnvelope },
    Ack { event_id: String },
    SyncExchange { stream_id: String, known_ids: Vec<String>, events: Vec<EventEnvelope> },
    SyncResult { events: Vec<EventEnvelope> },
    ChunkRequest { manifest_id: String, hashes: Vec<String> },
    ChunkResult { manifest_id: String, chunks: Vec<WireChunk> },
    PushChunks { manifest_id: String, chunks: Vec<WireChunk> },
    Error { message: String },
}

/// An encrypted file chunk on the wire.
#[derive(Debug, Clone)]
pub struct WireChunk {
    pub hash: String,
    pub nonce: [u8; 24],
    pub bytes: Vec<u8>,
}

/// The four big-endian bytes of a length.
pub open spec fn length_prefix(n: u32) -> Seq<u8> {
    seq![(n >> 24) as u8, ((n >> 16) & 0xff) as u8, ((n >> 8) & 0xff) as u8, (n & 0xff) as u8]
}

/// The length a four-byte big-endian prefix announces.
pub open spec fn prefix_value(b: Seq<u8>) -> u32 {
    ((b[0] as u32) << 24) | ((b[1] as u32) << 16) | ((b[2] as u32) << 8) | (b[3] as u32)
}

/// A frame for a payload: its length prefix, then the payload.
pub open spec fn framed(payload: Seq<u8>) -> Seq<u8> {
    length_prefix(payload.len() as u32) + payload
}

/// Frames an encoded envelope; `None` when it is larger than the frame limit.
pub fn frame(payload: &[u8]) -> (frame: Option<Vec<u8>>)
    ensures
        frame is Some <==> payload@.len() <= MAX_FRAME,
        frame matches Some(f) ==> f@ == framed(payload@),
{
    if payload.len() > MAX_FRAME {
        return None;
    }
    let n = payload.len() as u32;
    let mut out: Vec<u8> = Vec::new();
    out.push((n >> 24) as u8);
    out.push(((n >> 16) & 0xff) as u8);
    out.push(((n >> 8) & 0xff) as u8);
    out.push((n & 0xff) as u8);
    let mut i: usize = 0;
    while i < payload.len()
        invariant
            i <= payload@.len(),
            out@ == length_prefix(n) + payload@.subrange(0, i as int),
        decreases payload@.len() - i,
    {
        out.push(payload[i]);
        i = i + 1;
        assert(out@ =~= length_prefix(n) + payload@.subrange(0, i as int));
    }
    assert(payload@.subrange(0, payload@.len() as int) =~= payload@);
    Some(out)
}

/// The payload length announced by a frame's four-byte prefix, if within the
/// frame limit.
pub fn frame_length(prefix: [u8; 4]) -> (length: Option<usize>)
    ensures
        length is Some <==> prefix_value(prefix@) <= MAX_FRAME,
        length matches Some(n) ==> n == prefix_value(prefix@),
{
    let n: u32 = ((prefix[0] as u32) << 24) | ((prefix[1] as u32) << 16) | ((prefix[2] as u32) << 8)
        | (prefix[3] as u32);
    if n as usize > MAX_FRAME {
        None
    } else {
        Some(n as usize)
    }
}

/// A frame's prefix announces exactly the length of the payload it frames.
pub proof fn lemma_frame_roundtrip(payload: Seq<u8>)
    requires
        payload.len() <= MAX_FRAME,
    ensures
        prefix_value(framed(payload).subrange(0, 4)) == payload.len(),
        framed(payload).subrange(4, framed(payload).len() as int) == payload,
{
    let n = payload.len() as u32;
    let p = framed(payload).subrange(0, 4);
    assert(p =~= length_prefix(n));
    assert(prefix_value(length_prefix(n)) == n) by {
        let b0 = (n >> 24) as u8;
        let b1 = ((n >> 16) & 0xff) as u8;
        let b2 = ((n >> 8) & 0xff) as u8;
        let b3 = (n & 0xff) as u8;
        assert((((b0 as u32) << 24) | ((b1 as u32) << 16) | ((b2 as u32) << 8) | (b3 as u32)) == n)
            by (bit_vector)
            requires
                b0 == (n >> 24) as u8,
                b1 == ((n >> 16) & 0xff) as u8,
                b2 == ((n >> 8) & 0xff) as u8,
                b3 == (n & 0xff) as u8,
        ;
    }
    assert(framed(payload).subrange(4, framed(payload).len() as int) =~= payload);
}

} // verus!
