//! The decisions a node takes around its network and storage work: which
//! peers a request may reach, which requests and responses it accepts, what a
//! sync exchange sends back, and which file chunks it serves or stores.
//!
//! The node itself (sockets, the event loop, the store) drives these
//! functions; every rule it applies is stated here.

use vstd::prelude::*;
use crate::error::{error_message, NexusError};
use crate::identity::{same_public_identity, validate_public_identity, validation_result, DeviceId, PublicIdentity};
use crate::model::{direct_stream_id, direct_stream_for, ChatItem, EventEnvelope, EventKind, FileManifest, Peer, PeerEndpoint, PROTOCOL_VERSION};
use crate::primitives::{hex_encode, random_bytes};
use crate::protocol::{WireEnvelope, WireMessage};
use crate::text::{hex_lower, trim, trimmed};

verus! {

/// How a node is set up.
#[derive(Debug, Clone)]
pub struct NodeConfig {
    pub data_dir: String,
    pub display_name: String,
    pub listen_port: u16,
    pub enable_mdns: bool,
}

/// The port a node listens on unless configured otherwise.
pub fn default_port() -> (port: u16)
    ensures
        port == 47777,
{
    47777
}

/// Whether mDNS discovery runs unless configured otherwise.
pub fn default_discovery() -> (enabled: bool)
    ensures
        enabled,
{
    true
}

/// What a node reports to its user interface.
#[derive(Debug, Clone)]
pub enum NodeEvent {
    Ready { identity: PublicIdentity, port: u16 },
    PeerDiscovered(Peer),
    PeerLost { device_id: DeviceId },
    Paired { peer: Peer },
    Message(ChatItem),
    FileProgress { manifest_id: String, received_chunks: usize, total_chunks: usize },
    FileComplete { manifest_id: String, name: String },
    SyncComplete { peer_id: DeviceId, received_events: usize },
    Error { message: String },
}

/// What `require_reachable_peer` decides.
pub open spec fn reachable_peer(id: DeviceId, stored: Option<Peer>) -> Result<Peer, NexusError> {
    match stored {
        None => Err(NexusError::UnknownPeer(id)),
        Some(p) => if p.endpoint is None {
            Err(NexusError::PeerOffline(id))
        } else {
            Ok(p)
        },
    }
}

/// A peer a request can be sent to: known, with an endpoint.
pub fn require_reachable_peer(id: &DeviceId, stored: Option<Peer>) -> (peer: Result<Peer, NexusError>)
    ensures
        peer == reachable_peer(*id, stored),
{
    match stored {
        None => Err(NexusError::UnknownPeer(id.copied())),
        Some(p) => if p.endpoint.is_none() {
            Err(NexusError::PeerOffline(id.copied()))
        } else {
            Ok(p)
        },
    }
}

/// What `require_paired_peer` decides.
pub open spec fn paired_peer(id: DeviceId, stored: Option<Peer>) -> Result<Peer, NexusError> {
    match reachable_peer(id, stored) {
        Err(e) => Err(e),
        Ok(p) => if p.paired {
            Ok(p)
        } else {
            Err(NexusError::PeerNotPaired(id))
        },
    }
}

/// A peer a conversation can use: known, with an endpoint, and paired.
pub fn require_paired_peer(id: &DeviceId, stored: Option<Peer>) -> (peer: Result<Peer, NexusError>)
    ensures
        peer == paired_peer(*id, stored),
{
    let peer = require_reachable_peer(id, stored)?;
    if !peer.paired {
        return Err(NexusError::PeerNotPaired(id.copied()));
    }
    Ok(peer)
}

/// What `require_sender_paired` decides.
pub open spec fn sender_paired(sender: PublicIdentity, stored: Option<Peer>) -> Result<Peer, NexusError> {
    match stored {
        None => Err(NexusError::UnknownSender),
        Some(p) => if !p.paired {
            Err(NexusError::SenderNotPaired)
        } else if !same_public_identity(p.identity, sender) {
            Err(NexusError::PairedIdentityChanged)
        } else {
            Ok(p)
        },
    }
}

/// A sender whose requests are served: known, paired, and presenting the
/// identity stored at pairing.
pub fn require_sender_paired(sender: &PublicIdentity, stored: Option<Peer>) -> (peer: Result<Peer, NexusError>)
    ensures
        peer == sender_paired(*sender, stored),
{
    match stored {
        None => Err(NexusError::UnknownSender),
        Some(p) => if !p.paired {
            Err(NexusError::SenderNotPaired)
        } else if !p.identity.same(sender) {
            Err(NexusError::PairedIdentityChanged)
        } else {
            Ok(p)
        },
    }
}

/// What `check_request` decides.
pub open spec fn request_check(version: u16, sender: PublicIdentity) -> Result<(), NexusError> {
    if version != PROTOCOL_VERSION {
        Err(NexusError::UnsupportedProtocolVersion)
    } else {
        validation_result(sender)
    }
}

/// An incoming request is served only in this protocol version and from a
/// valid identity.
pub fn check_request(request: &WireEnvelope) -> (checked: Result<(), NexusError>)
    ensures
        checked == request_check(request.version, request.sender),
{
    if request.version != PROTOCOL_VERSION {
        return Err(NexusError::UnsupportedProtocolVersion);
    }
    validate_public_identity(&request.sender)
}

/// What `check_response` decides.
pub open spec fn response_check(peer: Peer, response: WireEnvelope) -> Result<(), NexusError> {
    if response.version != PROTOCOL_VERSION {
        Err(NexusError::UnsupportedProtocolVersion)
    } else if validation_result(response.sender) is Err {
        validation_result(response.sender)
    } else if response.sender.device_id.0@ != peer.identity.device_id.0@ {
        Err(NexusError::ResponseIdentityMismatch)
    } else {
        match response.body {
            WireMessage::Error { message } => Err(NexusError::PeerReported(message)),
            _ => Ok(()),
        }
    }
}

/// A response is accepted only in this protocol version, from a valid identity
/// that is the peer asked, and when it is not an error report.
pub fn check_response(peer: &Peer, response: &WireEnvelope) -> (checked: Result<(), NexusError>)
    ensures
        checked == response_check(*peer, *response),
{
    if response.version != PROTOCOL_VERSION {
        return Err(NexusError::UnsupportedProtocolVersion);
    }
    validate_public_identity(&response.sender)?;
    if !response.sender.device_id.same(&peer.identity.device_id) {
        return Err(NexusError::ResponseIdentityMismatch);
    }
    match &response.body {
        WireMessage::Error { message } => Err(NexusError::PeerReported(message.clone())),
        _ => Ok(()),
    }
}

/// The body of the one response every request receives: the refusal when
/// the request is not served, otherwise the handler's answer, or its error
/// as an error report.
pub fn response_body(checked: Result<(), NexusError>, answer: Result<WireMessage, String>) -> (body: WireMessage)
    ensures
        checked matches Err(e) ==> (body matches WireMessage::Error { message } && message@ == error_message(e)),
        checked is Ok ==> body == (match answer {
            Ok(b) => b,
            Err(m) => WireMessage::Error { message: m },
        }),
{
    match checked {
        Err(e) => WireMessage::Error { message: e.message() },
        Ok(()) => match answer {
            Ok(b) => b,
            Err(m) => WireMessage::Error { message: m },
        },
    }
}

/// What `normalize_display_name` decides.
pub open spec fn display_name_check(name: Seq<char>) -> Result<Seq<char>, NexusError> {
    if trimmed(name).len() == 0 {
        Err(NexusError::DeviceNameEmpty)
    } else if trimmed(name).len() > 40 {
        Err(NexusError::DeviceNameTooLong)
    } else {
        Ok(trimmed(name))
    }
}

/// A new device name: trimmed, not empty, at most 40 characters.
pub fn normalize_display_name(name: &str) -> (normalized: Result<String, NexusError>)
    ensures
        match normalized {
            Ok(n) => display_name_check(name@) == Ok::<Seq<char>, NexusError>(n@),
            Err(e) => display_name_check(name@) == Err::<Seq<char>, NexusError>(e),
        },
{
    let name = trim(name);
    let count = name.as_str().unicode_len();
    if count == 0 {
        return Err(NexusError::DeviceNameEmpty);
    }
    if count > 40 {
        return Err(NexusError::DeviceNameTooLong);
    }
    Ok(name)
}

/// The identity as the node presents it: the stored public identity under the
/// current display name.
pub fn renamed_identity(public: &PublicIdentity, display_name: &str) -> (identity: PublicIdentity)
    ensures
        identity.device_id == public.device_id,
        identity.display_name@ == display_name@,
        identity.signing_public_key == public.signing_public_key,
        identity.exchange_public_key == public.exchange_public_key,
{
    PublicIdentity {
        device_id: public.device_id.copied(),
        display_name: display_name.to_owned(),
        signing_public_key: public.signing_public_key,
        exchange_public_key: public.exchange_public_key,
    }
}

/// Whose key an event of a direct conversation is checked against: the local
/// identity for its own events, the peer for all others.
pub fn chat_author(local: &PublicIdentity, peer: &PublicIdentity, event: &EventEnvelope) -> (author: PublicIdentity)
    ensures
        author == if event.author.0@ == local.device_id.0@ { *local } else { *peer },
{
    if event.author.same(&local.device_id) {
        local.copied()
    } else {
        peer.copied()
    }
}

/// Events written by the given device.
pub open spec fn authored_by(id: Seq<char>) -> spec_fn(EventEnvelope) -> bool {
    |e: EventEnvelope| e.author.0@ == id
}

/// The events the local device wrote, in order; what a sync request offers.
pub fn own_events(events: Vec<EventEnvelope>, local_id: &DeviceId) -> (own: Vec<EventEnvelope>)
    ensures
        own@ == events@.filter(authored_by(local_id.0@)),
        own@ == events@.filter(|e: EventEnvelope| e.author.0@ == local_id.0@),
        forall|k: int| 0 <= k < own@.len() ==> (#[trigger] own@[k]).author.0@ == local_id.0@,
        forall|i: int|
            0 <= i < events@.len() && events@[i].author.0@ == local_id.0@ ==> #[trigger] own@.contains(events@[i]),
{
    let ghost all = events@;
    let mut own: Vec<EventEnvelope> = Vec::new();
    for e in it: events
        invariant
            it.seq() == all,
            own@ == all.take(it.index() as int).filter(authored_by(local_id.0@)),
    {
        proof {
            reveal_with_fuel(Seq::<_>::filter, 1);
        }
        assert(all.take(it.index() + 1).drop_last() =~= all.take(it.index() as int));
        if e.author.same(local_id) {
            own.push(e);
        }
    }
    assert(all.take(all.len() as int) =~= all);
    proof {
        assert(authored_by(local_id.0@) =~= (|e: EventEnvelope| e.author.0@ == local_id.0@));
        lemma_own_events_exact(all, local_id.0@);
    }
    own
}

/// What a sync request offers is exactly the local device's events: every
/// event it holds was written by that device, and every event that device
/// wrote is among them.
pub proof fn lemma_own_events_exact(events: Seq<EventEnvelope>, local_id: Seq<char>)
    ensures
        forall|k: int|
            0 <= k < events.filter(authored_by(local_id)).len()
                ==> (#[trigger] events.filter(authored_by(local_id))[k]).author.0@ == local_id,
        forall|i: int|
            0 <= i < events.len() && events[i].author.0@ == local_id
                ==> #[trigger] events.filter(authored_by(local_id)).contains(events[i]),
{
    let pred = authored_by(local_id);
    assert forall|k: int| 0 <= k < events.filter(pred).len() implies (#[trigger] events.filter(pred)[k]).author.0@ == local_id by {
        events.lemma_filter_pred(pred, k);
    }
    assert forall|i: int| 0 <= i < events.len() && events[i].author.0@ == local_id implies #[trigger] events.filter(pred).contains(events[i]) by {
        events.lemma_filter_contains(pred, i);
    }
}

/// Whether an event of a sync exchange is imported: only the sender's own events are.
pub fn from_sender(event: &EventEnvelope, sender_id: &DeviceId) -> (imported: bool)
    ensures
        imported == (event.author.0@ == sender_id.0@),
{
    event.author.same(sender_id)
}

/// The texts of a list of strings.
pub open spec fn texts(v: Seq<String>) -> Seq<Seq<char>> {
    v.map_values(|s: String| s@)
}

/// The ids of events, in order.
pub fn event_ids(events: &Vec<EventEnvelope>) -> (ids: Vec<String>)
    ensures
        texts(ids@) == events@.map_values(|e: EventEnvelope| e.id@),
{
    let mut ids: Vec<String> = Vec::new();
    let mut i: usize = 0;
    while i < events.len()
        invariant
            i <= events@.len(),
            ids@.len() == i,
            texts(ids@) =~= events@.take(i as int).map_values(|e: EventEnvelope| e.id@),
        decreases events@.len() - i,
    {
        let id = events[i].id.clone();
        let ghost before = ids@;
        ids.push(id);
        assert forall|k: int| 0 <= k < ids@.len() implies #[trigger] texts(ids@)[k] == events@.take(i + 1).map_values(|e: EventEnvelope| e.id@)[k] by {
            if k < i {
                assert(ids@[k] == before[k]);
                assert(texts(before)[k] == events@.take(i as int).map_values(|e: EventEnvelope| e.id@)[k]);
            }
        }
        i = i + 1;
        assert(texts(ids@) =~= events@.take(i as int).map_values(|e: EventEnvelope| e.id@));
    }
    assert(events@.take(events@.len() as int) =~= events@);
    ids
}

fn contains_text(list: &Vec<String>, item: &String) -> (found: bool)
    ensures
        found == texts(list@).contains(item@),
{
    let mut i: usize = 0;
    while i < list.len()
        invariant
            i <= list@.len(),
            forall|k: int| 0 <= k < i ==> list@[k]@ != item@,
        decreases list@.len() - i,
    {
        if list[i] == *item {
            assert(texts(list@)[i as int] == item@);
            return true;
        }
        i = i + 1;
    }
    proof {
        if texts(list@).contains(item@) {
            let k = choose|k: int| 0 <= k < texts(list@).len() && texts(list@)[k] == item@;
            assert(list@[k]@ == item@);
        }
    }
    false
}

/// Events the local device wrote whose ids the peer does not know.
pub open spec fn unknown_to_peer(local_id: Seq<char>, known: Seq<Seq<char>>) -> spec_fn(EventEnvelope) -> bool {
    |e: EventEnvelope| e.author.0@ == local_id && !known.contains(e.id@)
}

/// The answer to a sync exchange: the local device's own events that the peer
/// did not list as known, in order.
pub fn events_missing_for_peer(events: Vec<EventEnvelope>, local_id: &DeviceId, known_ids: &Vec<String>) -> (missing: Vec<EventEnvelope>)
    ensures
        missing@ == events@.filter(unknown_to_peer(local_id.0@, texts(known_ids@))),
{
    let ghost all = events@;
    let ghost pred = unknown_to_peer(local_id.0@, texts(known_ids@));
    let mut missing: Vec<EventEnvelope> = Vec::new();
    for e in it: events
        invariant
            it.seq() == all,
            pred == unknown_to_peer(local_id.0@, texts(known_ids@)),
            missing@ == all.take(it.index() as int).filter(pred),
    {
        proof {
            reveal_with_fuel(Seq::<_>::filter, 1);
        }
        assert(all.take(it.index() + 1).drop_last() =~= all.take(it.index() as int));
        if e.author.same(local_id) && !contains_text(known_ids, &e.id) {
            missing.push(e);
        }
    }
    assert(all.take(all.len() as int) =~= all);
    missing
}

/// A sync answer holds exactly what the peer lacks of the local device's
/// events: every event the local device wrote whose id the peer did not list
/// is sent, and nothing else is.
pub proof fn lemma_sync_answer_exact(events: Seq<EventEnvelope>, local_id: Seq<char>, known: Seq<Seq<char>>)
    ensures
        forall|i: int|
            0 <= i < events.len() && events[i].author.0@ == local_id && !known.contains(events[i].id@)
                ==> #[trigger] events.filter(unknown_to_peer(local_id, known)).contains(events[i]),
        forall|j: int|
            0 <= j < events.filter(unknown_to_peer(local_id, known)).len() ==> {
                &&& (#[trigger] events.filter(unknown_to_peer(local_id, known))[j]).author.0@ == local_id
                &&& !known.contains(events.filter(unknown_to_peer(local_id, known))[j].id@)
            },
{
    let pred = unknown_to_peer(local_id, known);
    assert forall|i: int|
        0 <= i < events.len() && events[i].author.0@ == local_id && !known.contains(events[i].id@)
            implies #[trigger] events.filter(pred).contains(events[i]) by {
        events.lemma_filter_contains(pred, i);
    }
    assert forall|j: int| 0 <= j < events.filter(pred).len() implies {
        &&& (#[trigger] events.filter(pred)[j]).author.0@ == local_id
        &&& !known.contains(events.filter(pred)[j].id@)
    } by {
        events.lemma_filter_pred(pred, j);
    }
}

/// A pushed event is accepted only from its own author; forwarded events are refused.
pub fn check_pushed_event(sender: &PublicIdentity, event: &EventEnvelope) -> (checked: Result<(), NexusError>)
    ensures
        checked == if event.author.0@ == sender.device_id.0@ {
            Ok::<(), NexusError>(())
        } else {
            Err(NexusError::ForwardedEvent)
        },
{
    if event.author.same(&sender.device_id) {
        Ok(())
    } else {
        Err(NexusError::ForwardedEvent)
    }
}

/// A sync exchange is served only for the direct stream of the two devices.
pub fn check_sync_stream(local_id: &DeviceId, sender_id: &DeviceId, stream_id: &String) -> (checked: Result<(), NexusError>)
    ensures
        checked == if stream_id@ == direct_stream_for(local_id.0@, sender_id.0@) {
            Ok::<(), NexusError>(())
        } else {
            Err(NexusError::InvalidStreamId)
        },
{
    let expected = direct_stream_id(local_id, sender_id);
    if *stream_id == expected {
        Ok(())
    } else {
        Err(NexusError::InvalidStreamId)
    }
}

/// The chunk hashes a manifest lists.
pub open spec fn manifest_hashes(manifest: FileManifest) -> Seq<Seq<char>> {
    manifest.chunks@.map_values(|c: crate::model::ChunkDescriptor| c.hash@)
}

/// Whether the manifest lists a chunk with this hash.
pub fn manifest_lists(manifest: &FileManifest, hash: &String) -> (listed: bool)
    ensures
        listed == manifest_hashes(*manifest).contains(hash@),
{
    let mut i: usize = 0;
    while i < manifest.chunks.len()
        invariant
            i <= manifest.chunks@.len(),
            forall|k: int| 0 <= k < i ==> manifest.chunks@[k].hash@ != hash@,
        decreases manifest.chunks@.len() - i,
    {
        if manifest.chunks[i].hash == *hash {
            assert(manifest_hashes(*manifest)[i as int] == hash@);
            return true;
        }
        i = i + 1;
    }
    proof {
        if manifest_hashes(*manifest).contains(hash@) {
            let k = choose|k: int| 0 <= k < manifest_hashes(*manifest).len() && manifest_hashes(*manifest)[k] == hash@;
            assert(manifest.chunks@[k].hash@ == hash@);
        }
    }
    false
}

/// At most this many chunks travel in one request or response.
pub const CHUNK_BATCH: usize = 16;

/// The first `CHUNK_BATCH` entries of a list.
pub open spec fn first_batch<T>(s: Seq<T>) -> Seq<T> {
    if s.len() <= CHUNK_BATCH {
        s
    } else {
        s.take(CHUNK_BATCH as int)
    }
}

/// The chunks a chunk request is answered with, in order: the requested
/// hashes among the first 16 up to the first one the manifest does not list,
/// and, when such a hash stands among the first 16, the refusal that ends the
/// answer after them.
pub fn requested_chunks(manifest: &FileManifest, hashes: &Vec<String>) -> (served: (Vec<String>, Option<NexusError>))
    ensures
        served.0@.len() <= first_batch(hashes@).len(),
        texts(served.0@) == texts(first_batch(hashes@).take(served.0@.len() as int)),
        forall|k: int| 0 <= k < served.0@.len() ==> manifest_hashes(*manifest).contains(#[trigger] served.0@[k]@),
        (served.1 is Some) <==> served.0@.len() < first_batch(hashes@).len(),
        served.1 matches Some(e) ==> e == NexusError::ChunkNotInManifest
            && !manifest_hashes(*manifest).contains(first_batch(hashes@)[served.0@.len() as int]@),
{
    let limit = if hashes.len() <= CHUNK_BATCH { hashes.len() } else { CHUNK_BATCH };
    let ghost batch = first_batch(hashes@);
    let mut served: Vec<String> = Vec::new();
    let mut i: usize = 0;
    while i < limit
        invariant
            limit == batch.len(),
            batch == first_batch(hashes@),
            limit <= hashes@.len(),
            i <= limit,
            served@.len() == i,
            texts(served@) =~= texts(batch.take(i as int)),
            forall|k: int| 0 <= k < i ==> manifest_hashes(*manifest).contains(#[trigger] served@[k]@),
        decreases limit - i,
    {
        assert(batch[i as int] == hashes@[i as int]);
        if !manifest_lists(manifest, &hashes[i]) {
            return (served, Some(NexusError::ChunkNotInManifest));
        }
        let h = hashes[i].clone();
        let ghost before = served@;
        served.push(h);
        assert forall|k: int| 0 <= k < served@.len() implies #[trigger] texts(served@)[k] == texts(batch.take(i + 1))[k] by {
            if k < i {
                assert(served@[k] == before[k]);
                assert(texts(before)[k] == texts(batch.take(i as int))[k]);
            }
        }
        i = i + 1;
        assert(texts(served@) =~= texts(batch.take(i as int)));
    }
    (served, None)
}

/// How many chunks of a manifest have arrived, given how many are missing.
pub fn received_chunks(total: usize, remaining: usize) -> (received: usize)
    requires
        remaining <= total,
    ensures
        received == total - remaining,
{
    total - remaining
}

/// The next chunk request while a file is incomplete: the first 16 missing hashes.
pub fn next_chunk_request(missing: &Vec<String>) -> (request: Vec<String>)
    ensures
        texts(request@) == texts(first_batch(missing@)),
{
    let limit = if missing.len() <= CHUNK_BATCH { missing.len() } else { CHUNK_BATCH };
    let mut request: Vec<String> = Vec::new();
    let mut i: usize = 0;
    while i < limit
        invariant
            limit == first_batch(missing@).len(),
            limit <= missing@.len(),
            i <= limit,
            request@.len() == i,
            texts(request@) =~= texts(missing@.take(i as int)),
        decreases limit - i,
    {
        let h = missing[i].clone();
        let ghost before = request@;
        request.push(h);
        assert forall|k: int| 0 <= k < request@.len() implies #[trigger] texts(request@)[k] == texts(missing@.take(i + 1))[k] by {
            if k < i {
                assert(request@[k] == before[k]);
                assert(texts(before)[k] == texts(missing@.take(i as int))[k]);
            }
        }
        i = i + 1;
        assert(texts(request@) =~= texts(missing@.take(i as int)));
    }
    assert(first_batch(missing@) =~= missing@.take(limit as int));
    request
}

/// The batches a file's chunks are pushed in: consecutive ranges of at most 16
/// chunks, covering all of them in order.
pub fn chunk_batches(count: usize) -> (batches: Vec<(usize, usize)>)
    ensures
        batches@.len() == (count + CHUNK_BATCH - 1) / (CHUNK_BATCH as int),
        forall|b: int| 0 <= b < batches@.len() ==> (#[trigger] batches@[b]).0 == b * CHUNK_BATCH
            && batches@[b].1 == if (b + 1) * CHUNK_BATCH <= count { (b + 1) * CHUNK_BATCH } else { count as int },
{
    let mut batches: Vec<(usize, usize)> = Vec::new();
    let mut start: usize = 0;
    while start < count
        invariant
            start <= count,
            start < count ==> start == batches@.len() * CHUNK_BATCH,
            start == count ==> count <= batches@.len() * CHUNK_BATCH,
            batches@.len() == (start + CHUNK_BATCH - 1) / (CHUNK_BATCH as int),
            forall|b: int| 0 <= b < batches@.len() ==> (#[trigger] batches@[b]).0 == b * CHUNK_BATCH
                && batches@[b].1 == if (b + 1) * CHUNK_BATCH <= count { (b + 1) * CHUNK_BATCH } else { count as int },
        decreases count - start,
    {
        let end = if count - start <= CHUNK_BATCH { count } else { start + CHUNK_BATCH };
        batches.push((start, end));
        start = end;
    }
    batches
}

/// What a pair request's answer means.
pub open spec fn pair_outcome(body: WireMessage) -> Result<(), NexusError> {
    match body {
        WireMessage::PairResponse { accepted } => if accepted {
            Ok(())
        } else {
            Err(NexusError::PairRejected)
        },
        _ => Err(NexusError::UnexpectedPairResponse),
    }
}

/// Interprets the answer to a pair request.
pub fn check_pair_response(body: &WireMessage) -> (outcome: Result<(), NexusError>)
    ensures
        outcome == pair_outcome(*body),
{
    match body {
        WireMessage::PairResponse { accepted } => if *accepted {
            Ok(())
        } else {
            Err(NexusError::PairRejected)
        },
        _ => Err(NexusError::UnexpectedPairResponse),
    }
}

/// Whether a response acknowledges the event with this id.
pub fn acknowledges(body: &WireMessage, event_id: &String) -> (acked: bool)
    ensures
        acked == (body matches WireMessage::Ack { event_id: acked_id } && acked_id@ == event_id@),
{
    match body {
        WireMessage::Ack { event_id: acked_id } => *acked_id == *event_id,
        _ => false,
    }
}

/// Whether a response is an acknowledgement of any kind.
pub fn is_ack(body: &WireMessage) -> (acked: bool)
    ensures
        acked == (body is Ack),
{
    match body {
        WireMessage::Ack { .. } => true,
        _ => false,
    }
}

/// A sync request must be answered with a sync result.
pub fn check_sync_response(body: &WireMessage) -> (checked: Result<(), NexusError>)
    ensures
        checked == if body is SyncResult { Ok::<(), NexusError>(()) } else { Err(NexusError::UnexpectedSyncResponse) },
{
    match body {
        WireMessage::SyncResult { .. } => Ok(()),
        _ => Err(NexusError::UnexpectedSyncResponse),
    }
}

/// What `check_chunk_response` decides.
pub open spec fn chunk_response_check(manifest_id: Seq<char>, body: WireMessage) -> Result<(), NexusError> {
    match body {
        WireMessage::ChunkResult { manifest_id: answered, chunks } => if answered@ != manifest_id {
            Err(NexusError::ManifestResponseMismatch)
        } else if chunks@.len() == 0 {
            Err(NexusError::NoChunksReturned)
        } else {
            Ok(())
        },
        _ => Err(NexusError::UnexpectedChunkResponse),
    }
}

/// A chunk request must be answered with chunks of the manifest asked for,
/// and with at least one chunk.
pub fn check_chunk_response(manifest_id: &String, body: &WireMessage) -> (checked: Result<(), NexusError>)
    ensures
        checked == chunk_response_check(manifest_id@, *body),
{
    match body {
        WireMessage::ChunkResult { manifest_id: answered, chunks } => if *answered != *manifest_id {
            Err(NexusError::ManifestResponseMismatch)
        } else if chunks.len() == 0 {
            Err(NexusError::NoChunksReturned)
        } else {
            Ok(())
        },
        _ => Err(NexusError::UnexpectedChunkResponse),
    }
}

/// Responses are never served as requests.
pub fn check_request_body(body: &WireMessage) -> (checked: Result<(), NexusError>)
    ensures
        checked == match body {
            WireMessage::PairResponse { .. } | WireMessage::Ack { .. } | WireMessage::SyncResult { .. }
            | WireMessage::ChunkResult { .. } | WireMessage::Error { .. } => Err(NexusError::ResponseAsRequest),
            _ => Ok::<(), NexusError>(()),
        },
{
    match body {
        WireMessage::PairResponse { .. } | WireMessage::Ack { .. } | WireMessage::SyncResult { .. }
        | WireMessage::ChunkResult { .. } | WireMessage::Error { .. } => Err(NexusError::ResponseAsRequest),
        _ => Ok(()),
    }
}

/// The record of a device seen at an endpoint: a pairing made earlier is kept.
pub fn seen_peer(identity: PublicIdentity, endpoint: PeerEndpoint, stored: &Option<Peer>, now_ms: i64) -> (peer: Peer)
    ensures
        peer.identity == identity,
        peer.endpoint == Some(endpoint),
        peer.paired == (stored matches Some(p) && p.paired),
        peer.last_seen_ms == now_ms,
{
    let paired = match stored {
        Some(p) => p.paired,
        None => false,
    };
    Peer { identity, endpoint: Some(endpoint), paired, last_seen_ms: now_ms }
}

/// The record of a device that just paired.
pub fn newly_paired_peer(identity: PublicIdentity, endpoint: Option<PeerEndpoint>, now_ms: i64) -> (peer: Peer)
    ensures
        peer.identity == identity,
        peer.endpoint == endpoint,
        peer.paired,
        peer.last_seen_ms == now_ms,
{
    Peer { identity, endpoint, paired: true, last_seen_ms: now_ms }
}

/// How a pair request is answered: it is accepted on first use, and the
/// sender is recorded as paired at the endpoint already known for it.
pub fn answer_pair_request(sender: PublicIdentity, stored: &Option<Peer>, now_ms: i64) -> (answer: (Peer, WireMessage))
    ensures
        answer.0.identity == sender,
        answer.0.endpoint == (match stored {
            Some(p) => p.endpoint,
            None => None,
        }),
        answer.0.paired,
        answer.0.last_seen_ms == now_ms,
        answer.1 == (WireMessage::PairResponse { accepted: true }),
{
    let endpoint = match stored {
        Some(p) => match &p.endpoint {
            Some(e) => Some(e.copied()),
            None => None,
        },
        None => None,
    };
    (newly_paired_peer(sender, endpoint, now_ms), WireMessage::PairResponse { accepted: true })
}

/// Whether a stored event carries a file manifest to record.
pub fn carries_manifest(event: &EventEnvelope) -> (carries: bool)
    ensures
        carries == (event.kind == EventKind::FileManifest),
{
    match event.kind {
        EventKind::FileManifest => true,
        _ => false,
    }
}

/// Whether seeing a device on the network starts a sync with it: only a
/// paired device is synced.
pub fn syncs_on_discovery(peer: &Peer) -> (sync: bool)
    ensures
        sync == peer.paired,
{
    peer.paired
}

/// A fresh pairing nonce: six random bytes in hex.
pub fn pairing_nonce() -> (nonce: String)
    ensures
        exists|bytes: Seq<u8>| bytes.len() == 6 && nonce@ == hex_lower(bytes),
{
    let bytes: [u8; 6] = random_bytes();
    let nonce = hex_encode(bytes.as_slice());
    assert(bytes@.len() == 6 && nonce@ == hex_lower(bytes@));
    nonce
}

} // verus!
