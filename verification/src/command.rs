//! How the command line and the JSON command interface read a command.

use vstd::prelude::*;
use crate::error::NexusError;
use crate::identity::PublicIdentity;
use crate::model::PeerEndpoint;
use crate::text::{all_white_space, is_blank, trim, trimmed};

verus! {

/// Whether two texts are equal.
pub fn text_eq(a: &str, b: &str) -> (eq: bool)
    ensures
        eq == (a@ == b@),
{
    let n = a.unicode_len();
    if n != b.unicode_len() {
        return false;
    }
    let mut i: usize = 0;
    while i < n
        invariant
            n == a@.len(),
            n == b@.len(),
            i <= n,
            forall|k: int| 0 <= k < i ==> a@[k] == b@[k],
        decreases n - i,
    {
        if a.get_char(i) != b.get_char(i) {
            return false;
        }
        i = i + 1;
    }
    assert(a@ =~= b@);
    true
}

/// The position of the first space, if any.
pub open spec fn first_space(s: Seq<char>) -> Option<int> {
    if exists|i: int| 0 <= i < s.len() && s[i] == ' ' {
        Some(choose|i: int| 0 <= i < s.len() && s[i] == ' ' && forall|k: int| 0 <= k < i ==> s[k] != ' ')
    } else {
        None
    }
}

/// The text up to its first space, and what follows that space if there is one.
pub open spec fn split_at_space(s: Seq<char>) -> (Seq<char>, Option<Seq<char>>) {
    match first_space(s) {
        Some(i) => (s.subrange(0, i), Some(s.subrange(i + 1, s.len() as int))),
        None => (s, None),
    }
}

fn split_space(s: &str) -> (parts: (String, Option<String>))
    ensures
        parts.0@ == split_at_space(s@).0,
        match (parts.1, split_at_space(s@).1) {
            (Some(r), Some(t)) => r@ == t,
            (None, None) => true,
            _ => false,
        },
{
    let n = s.unicode_len();
    let mut i: usize = 0;
    while i < n && s.get_char(i) != ' '
        invariant
            n == s@.len(),
            i <= n,
            forall|k: int| 0 <= k < i ==> s@[k] != ' ',
        decreases n - i,
    {
        i = i + 1;
    }
    proof {
        if i < n {
            assert(s@[i as int] == ' ');
            let w = choose|j: int| 0 <= j < s@.len() && s@[j] == ' ' && forall|k: int| 0 <= k < j ==> s@[k] != ' ';
            if w < i {
                assert(s@[w] != ' ');
            }
            if i < w {
                assert(s@[i as int] != ' ');
            }
        } else {
            assert(s@.subrange(0, n as int) =~= s@);
        }
    }
    if i < n {
        (s.substring_char(0, i).to_owned(), Some(s.substring_char(i + 1, n).to_owned()))
    } else {
        (s.to_owned(), None)
    }
}

/// A line typed at the command line, split at its first two spaces after trimming.
pub struct CliLine {
    pub command: String,
    pub first: Option<String>,
    pub rest: Option<String>,
}

/// The view of an optional string.
pub open spec fn opt_view(s: Option<String>) -> Option<Seq<char>> {
    match s {
        Some(t) => Some(t@),
        None => None,
    }
}

/// `line.trim().splitn(3, ' ')`: the command word, the next word and the rest of the line.
pub open spec fn cli_parts(line: Seq<char>) -> (Seq<char>, Option<Seq<char>>, Option<Seq<char>>) {
    let t = trimmed(line);
    match split_at_space(t).1 {
        None => (split_at_space(t).0, None, None),
        Some(r) => (split_at_space(t).0, Some(split_at_space(r).0), split_at_space(r).1),
    }
}

/// Splits a command line into its command word, its next word and the rest.
pub fn split_cli_line(line: &str) -> (parsed: CliLine)
    ensures
        parsed.command@ == cli_parts(line@).0,
        opt_view(parsed.first) == cli_parts(line@).1,
        opt_view(parsed.rest) == cli_parts(line@).2,
{
    let t = trim(line);
    let (command, rest) = split_space(t.as_str());
    match rest {
        None => CliLine { command, first: None, rest: None },
        Some(r) => {
            let (first, rest) = split_space(r.as_str());
            CliLine { command, first: Some(first), rest }
        },
    }
}

/// A required argument: its value, or an error naming what is missing.
pub fn required(value: Option<String>, name: &str) -> (argument: Result<String, NexusError>)
    ensures
        match (value, argument) {
            (Some(v), Ok(a)) => a@ == v@,
            (None, Err(NexusError::Missing(n))) => n@ == name@,
            _ => false,
        },
{
    match value {
        Some(v) => Ok(v),
        None => Err(NexusError::Missing(name.to_owned())),
    }
}

/// The operations of the JSON command interface.
#[derive(Debug, Clone, Copy, PartialEq, Eq, Structural)]
pub enum Operation {
    Start,
    Identity,
    SetDisplayName,
    Peers,
    RememberPeer,
    Pair,
    SendText,
    SendFile,
    Chat,
    Sync,
    MaterializeFile,
    Events,
}

/// The operation a command names.
pub open spec fn operation_named(op: Seq<char>) -> Option<Operation> {
    if op == "start"@ {
        Some(Operation::Start)
    } else if op == "identity"@ {
        Some(Operation::Identity)
    } else if op == "set_display_name"@ {
        Some(Operation::SetDisplayName)
    } else if op == "peers"@ {
        Some(Operation::Peers)
    } else if op == "remember_peer"@ {
        Some(Operation::RememberPeer)
    } else if op == "pair"@ {
        Some(Operation::Pair)
    } else if op == "send_text"@ {
        Some(Operation::SendText)
    } else if op == "send_file"@ {
        Some(Operation::SendFile)
    } else if op == "chat"@ {
        Some(Operation::Chat)
    } else if op == "sync"@ {
        Some(Operation::Sync)
    } else if op == "materialize_file"@ {
        Some(Operation::MaterializeFile)
    } else if op == "events"@ {
        Some(Operation::Events)
    } else {
        None
    }
}

/// Each of the twelve command names parses to the operation of the same name,
/// so no two names share an operation.
pub proof fn lemma_operation_names()
    ensures
        operation_named("start"@) == Some(Operation::Start),
        operation_named("identity"@) == Some(Operation::Identity),
        operation_named("set_display_name"@) == Some(Operation::SetDisplayName),
        operation_named("peers"@) == Some(Operation::Peers),
        operation_named("remember_peer"@) == Some(Operation::RememberPeer),
        operation_named("pair"@) == Some(Operation::Pair),
        operation_named("send_text"@) == Some(Operation::SendText),
        operation_named("send_file"@) == Some(Operation::SendFile),
        operation_named("chat"@) == Some(Operation::Chat),
        operation_named("sync"@) == Some(Operation::Sync),
        operation_named("materialize_file"@) == Some(Operation::MaterializeFile),
        operation_named("events"@) == Some(Operation::Events),
{
    reveal_strlit("start");
    reveal_strlit("identity");
    reveal_strlit("set_display_name");
    reveal_strlit("peers");
    reveal_strlit("remember_peer");
    reveal_strlit("pair");
    reveal_strlit("send_text");
    reveal_strlit("send_file");
    reveal_strlit("chat");
    reveal_strlit("sync");
    reveal_strlit("materialize_file");
    reveal_strlit("events");
    assert("identity"@.len() != "start"@.len());
    assert("set_display_name"@.len() != "start"@.len());
    assert("set_display_name"@.len() != "identity"@.len());
    assert("peers"@[0] != "start"@[0]);
    assert("peers"@.len() != "identity"@.len());
    assert("peers"@.len() != "set_display_name"@.len());
    assert("remember_peer"@.len() != "start"@.len());
    assert("remember_peer"@.len() != "identity"@.len());
    assert("remember_peer"@.len() != "set_display_name"@.len());
    assert("remember_peer"@.len() != "peers"@.len());
    assert("pair"@.len() != "start"@.len());
    assert("pair"@.len() != "identity"@.len());
    assert("pair"@.len() != "set_display_name"@.len());
    assert("pair"@.len() != "peers"@.len());
    assert("pair"@.len() != "remember_peer"@.len());
    assert("send_text"@.len() != "start"@.len());
    assert("send_text"@.len() != "identity"@.len());
    assert("send_text"@.len() != "set_display_name"@.len());
    assert("send_text"@.len() != "peers"@.len());
    assert("send_text"@.len() != "remember_peer"@.len());
    assert("send_text"@.len() != "pair"@.len());
    assert("send_file"@.len() != "start"@.len());
    assert("send_file"@.len() != "identity"@.len());
    assert("send_file"@.len() != "set_display_name"@.len());
    assert("send_file"@.len() != "peers"@.len());
    assert("send_file"@.len() != "remember_peer"@.len());
    assert("send_file"@.len() != "pair"@.len());
    assert("send_file"@[5] != "send_text"@[5]);
    assert("chat"@.len() != "start"@.len());
    assert("chat"@.len() != "identity"@.len());
    assert("chat"@.len() != "set_display_name"@.len());
    assert("chat"@.len() != "peers"@.len());
    assert("chat"@.len() != "remember_peer"@.len());
    assert("chat"@[0] != "pair"@[0]);
    assert("chat"@.len() != "send_text"@.len());
    assert("chat"@.len() != "send_file"@.len());
    assert("sync"@.len() != "start"@.len());
    assert("sync"@.len() != "identity"@.len());
    assert("sync"@.len() != "set_display_name"@.len());
    assert("sync"@.len() != "peers"@.len());
    assert("sync"@.len() != "remember_peer"@.len());
    assert("sync"@[0] != "pair"@[0]);
    assert("sync"@.len() != "send_text"@.len());
    assert("sync"@.len() != "send_file"@.len());
    assert("sync"@[0] != "chat"@[0]);
    assert("materialize_file"@.len() != "start"@.len());
    assert("materialize_file"@.len() != "identity"@.len());
    assert("materialize_file"@[0] != "set_display_name"@[0]);
    assert("materialize_file"@.len() != "peers"@.len());
    assert("materialize_file"@.len() != "remember_peer"@.len());
    assert("materialize_file"@.len() != "pair"@.len());
    assert("materialize_file"@.len() != "send_text"@.len());
    assert("materialize_file"@.len() != "send_file"@.len());
    assert("materialize_file"@.len() != "chat"@.len());
    assert("materialize_file"@.len() != "sync"@.len());
    assert("events"@.len() != "start"@.len());
    assert("events"@.len() != "identity"@.len());
    assert("events"@.len() != "set_display_name"@.len());
    assert("events"@.len() != "peers"@.len());
    assert("events"@.len() != "remember_peer"@.len());
    assert("events"@.len() != "pair"@.len());
    assert("events"@.len() != "send_text"@.len());
    assert("events"@.len() != "send_file"@.len());
    assert("events"@.len() != "chat"@.len());
    assert("events"@.len() != "sync"@.len());
    assert("events"@.len() != "materialize_file"@.len());
}

impl Operation {
    /// The operation a command names; an unknown name is refused.
    pub fn parse(op: &str) -> (operation: Result<Operation, NexusError>)
        ensures
            match (operation_named(op@), operation) {
                (Some(o), Ok(p)) => o == p,
                (None, Err(NexusError::UnknownOperation(name))) => name@ == op@,
                _ => false,
            },
    {
        if text_eq(op, "start") {
            Ok(Operation::Start)
        } else if text_eq(op, "identity") {
            Ok(Operation::Identity)
        } else if text_eq(op, "set_display_name") {
            Ok(Operation::SetDisplayName)
        } else if text_eq(op, "peers") {
            Ok(Operation::Peers)
        } else if text_eq(op, "remember_peer") {
            Ok(Operation::RememberPeer)
        } else if text_eq(op, "pair") {
            Ok(Operation::Pair)
        } else if text_eq(op, "send_text") {
            Ok(Operation::SendText)
        } else if text_eq(op, "send_file") {
            Ok(Operation::SendFile)
        } else if text_eq(op, "chat") {
            Ok(Operation::Chat)
        } else if text_eq(op, "sync") {
            Ok(Operation::Sync)
        } else if text_eq(op, "materialize_file") {
            Ok(Operation::MaterializeFile)
        } else if text_eq(op, "events") {
            Ok(Operation::Events)
        } else {
            Err(NexusError::UnknownOperation(op.to_owned()))
        }
    }
}

/// The identity and endpoint of a command to remember a peer: the identity
/// must be given, the host must not be blank and the port must not be zero.
pub fn remember_peer_arguments(identity: Option<PublicIdentity>, host: String, port: u16) -> (arguments: Result<(PublicIdentity, PeerEndpoint), NexusError>)
    ensures
        match arguments {
            Ok((i, e)) => identity == Some(i) && !all_white_space(host@) && port != 0 && e.host@ == host@
                && e.port == port,
            Err(e) => if identity is None {
                e == NexusError::MissingPeerIdentity
            } else if all_white_space(host@) {
                e == NexusError::MissingPeerHost
            } else {
                port == 0 && e == NexusError::MissingPeerPort
            },
        },
{
    let identity = match identity {
        Some(i) => i,
        None => return Err(NexusError::MissingPeerIdentity),
    };
    if is_blank(host.as_str()) {
        return Err(NexusError::MissingPeerHost);
    }
    if port == 0 {
        return Err(NexusError::MissingPeerPort);
    }
    Ok((identity, PeerEndpoint { host, port }))
}

} // verus!
