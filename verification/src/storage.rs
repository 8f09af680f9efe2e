//! The rules the store applies to what it keeps: how a peer record is
//! updated, when a blob may be stored under a hash, where a blob lives, and
//! the order in which a stream's events are shown.

use vstd::prelude::*;
use crate::error::NexusError;
use crate::files::{content_hash, hash_hex};
use crate::model::{EventEnvelope, Peer};
use crate::text::{byte_prefix, lex_le, lemma_lex_le_total};
use vstd::utf8::{encode_utf8, is_char_boundary};

verus! {

/// The record kept after a peer is written over an existing record: the new
/// identity and time, a pairing that is never lost, and the new endpoint, or
/// the old one when the new record has none.
pub open spec fn merged_peer(stored: Option<Peer>, incoming: Peer) -> Peer {
    match stored {
        None => incoming,
        Some(old) => Peer {
            identity: incoming.identity,
            endpoint: if incoming.endpoint is Some { incoming.endpoint } else { old.endpoint },
            paired: old.paired || incoming.paired,
            last_seen_ms: incoming.last_seen_ms,
        },
    }
}

/// Updates a stored peer record with a new one.
pub fn merge_peer(stored: Option<Peer>, incoming: Peer) -> (merged: Peer)
    ensures
        merged == merged_peer(stored, incoming),
        merged.paired == ((stored matches Some(o) && o.paired) || incoming.paired),
        merged.identity == incoming.identity,
        merged.last_seen_ms == incoming.last_seen_ms,
        merged.endpoint == (if incoming.endpoint is Some {
            incoming.endpoint
        } else {
            match stored {
                Some(o) => o.endpoint,
                None => None,
            }
        }),
{
    match stored {
        None => incoming,
        Some(old) => {
            let paired = old.paired || incoming.paired;
            let endpoint = if incoming.endpoint.is_some() { incoming.endpoint } else { old.endpoint };
            Peer { identity: incoming.identity, endpoint, paired, last_seen_ms: incoming.last_seen_ms }
        },
    }
}

/// A pairing is never undone by a later record, an endpoint is only replaced
/// by another endpoint, and writing the same record twice changes nothing.
pub proof fn lemma_merge_keeps_pairing(stored: Option<Peer>, incoming: Peer)
    ensures
        (stored matches Some(old) && old.paired) ==> merged_peer(stored, incoming).paired,
        incoming.paired ==> merged_peer(stored, incoming).paired,
        (stored matches Some(old) && old.endpoint is Some) ==> merged_peer(stored, incoming).endpoint is Some,
        merged_peer(Some(merged_peer(stored, incoming)), incoming) == merged_peer(stored, incoming),
{
}

/// The merged record is paired exactly when the stored or the incoming record
/// is paired; it takes the incoming identity and time, and the incoming
/// endpoint when there is one, else the stored one.
pub proof fn lemma_merged_peer_fields(stored: Option<Peer>, incoming: Peer)
    ensures
        merged_peer(stored, incoming).paired == ((stored matches Some(o) && o.paired) || incoming.paired),
        merged_peer(stored, incoming).identity == incoming.identity,
        merged_peer(stored, incoming).last_seen_ms == incoming.last_seen_ms,
        incoming.endpoint is Some ==> merged_peer(stored, incoming).endpoint == incoming.endpoint,
        incoming.endpoint is None ==> merged_peer(stored, incoming).endpoint == (match stored {
            Some(o) => o.endpoint,
            None => None,
        }),
{
}

/// Checks that bytes hash to the chunk hash they are to be stored under.
pub fn check_blob(expected_hash: &String, bytes: &[u8]) -> (checked: Result<(), NexusError>)
    ensures
        checked == if content_hash(bytes@) == expected_hash@ {
            Ok::<(), NexusError>(())
        } else {
            Err(NexusError::ChunkHashMismatch)
        },
{
    let actual = hash_hex(bytes);
    if actual == *expected_hash {
        Ok(())
    } else {
        Err(NexusError::ChunkHashMismatch)
    }
}

/// The directory a blob is kept in: the first two bytes of its hash, which
/// must end on a character boundary.
pub fn blob_shard(hash: &str) -> (shard: String)
    requires
        is_char_boundary(encode_utf8(hash@), 2),
    ensures
        encode_utf8(shard@) == encode_utf8(hash@).subrange(0, 2),
{
    byte_prefix(hash, 2)
}

/// Display order of events: by creation time, then by event id.
pub open spec fn shown_before(a: EventEnvelope, b: EventEnvelope) -> bool {
    a.created_at_ms < b.created_at_ms || (a.created_at_ms == b.created_at_ms && lex_le(a.id@, b.id@))
}

/// Whether events are in display order.
pub open spec fn in_display_order(events: Seq<EventEnvelope>) -> bool {
    forall|i: int, j: int| 0 <= i < j < events.len() ==> shown_before(#[trigger] events[i], #[trigger] events[j])
}

/// Lexicographic order is transitive.
pub proof fn lemma_lex_le_transitive(a: Seq<char>, b: Seq<char>, c: Seq<char>)
    requires
        lex_le(a, b),
        lex_le(b, c),
    ensures
        lex_le(a, c),
    decreases a.len(),
{
    if a.len() > 0 && b.len() > 0 && c.len() > 0 && a[0] == b[0] && b[0] == c[0] {
        lemma_lex_le_transitive(a.drop_first(), b.drop_first(), c.drop_first());
    }
}

proof fn lemma_shown_before_total(a: EventEnvelope, b: EventEnvelope)
    ensures
        shown_before(a, b) || shown_before(b, a),
{
    lemma_lex_le_total(a.id@, b.id@);
}

proof fn lemma_shown_before_transitive(a: EventEnvelope, b: EventEnvelope, c: EventEnvelope)
    requires
        shown_before(a, b),
        shown_before(b, c),
    ensures
        shown_before(a, c),
{
    if a.created_at_ms == b.created_at_ms && b.created_at_ms == c.created_at_ms {
        lemma_lex_le_transitive(a.id@, b.id@, c.id@);
    }
}

fn shown_before_exec(a: &EventEnvelope, b: &EventEnvelope) -> (before: bool)
    ensures
        before == shown_before(*a, *b),
{
    a.created_at_ms < b.created_at_ms || (a.created_at_ms == b.created_at_ms && crate::text::str_le(
        a.id.as_str(),
        b.id.as_str(),
    ))
}

/// Puts a stream's events in display order; the same events come out, each
/// as often as it went in.
pub fn sort_events(events: Vec<EventEnvelope>) -> (sorted: Vec<EventEnvelope>)
    ensures
        in_display_order(sorted@),
        sorted@.to_multiset() == events@.to_multiset(),
{
    let ghost all = events@;
    let mut sorted: Vec<EventEnvelope> = Vec::new();
    assert(all.take(0) =~= sorted@);
    for e in it: events
        invariant
            it.seq() == all,
            in_display_order(sorted@),
            sorted@.to_multiset() == all.take(it.index() as int).to_multiset(),
    {
        let mut pos: usize = 0;
        while pos < sorted.len() && shown_before_exec(&sorted[pos], &e)
            invariant
                pos <= sorted@.len(),
                forall|k: int| 0 <= k < pos ==> shown_before(#[trigger] sorted@[k], e),
            decreases sorted@.len() - pos,
        {
            pos = pos + 1;
        }
        let ghost before = sorted@;
        proof {
            if pos < before.len() {
                lemma_shown_before_total(before[pos as int], e);
            }
            assert forall|k: int| pos <= k < before.len() implies shown_before(e, #[trigger] before[k]) by {
                if k > pos {
                    lemma_shown_before_transitive(e, before[pos as int], before[k]);
                }
            }
        }
        sorted.insert(pos, e);
        proof {
            assert forall|i: int, j: int| 0 <= i < j < sorted@.len() implies shown_before(
                #[trigger] sorted@[i],
                #[trigger] sorted@[j],
            ) by {
                if i < pos && j == pos {
                } else if i < pos && j > pos {
                    assert(sorted@[j] == before[j - 1]);
                    assert(sorted@[i] == before[i]);
                } else if i == pos {
                    assert(sorted@[j] == before[j - 1]);
                } else if j < pos {
                    assert(sorted@[i] == before[i]);
                    assert(sorted@[j] == before[j]);
                } else {
                    assert(sorted@[i] == before[i - 1]);
                    assert(sorted@[j] == before[j - 1]);
                }
            }
            assert(all.take(it.index() + 1) =~= all.take(it.index() as int).push(e));
            assert(sorted@ == before.insert(pos as int, e));
            vstd::seq_lib::to_multiset_insert(before, pos as int, e);
            vstd::seq_lib::to_multiset_build(all.take(it.index() as int), e);
        }
    }
    assert(all.take(all.len() as int) =~= all);
    sorted
}

} // verus!
