//! What the LAN transport decides: how an endpoint is addressed, what the
//! mDNS service advertises, and how a resolved or removed service becomes a
//! discovery event.

use vstd::prelude::*;
use crate::identity::{DeviceId, PublicIdentity};
use crate::model::{PeerEndpoint, PROTOCOL_VERSION};
use crate::primitives::{bytes_view, hex_decode, hex_decoded, hex_encode};
use crate::text::{decimal_nat, push_char, push_decimal};
use crate::text::{byte_prefix, hex_lower, lemma_encode_utf8_concat};
use vstd::utf8::{encode_utf8, is_char_boundary};

verus! {

/// What a discovery adapter reports.
#[derive(Debug, Clone)]
pub enum TransportEvent {
    Discovered { endpoint: PeerEndpoint, announcement: PublicIdentity },
    Lost { device_id: DeviceId },
}

/// What a platform radio can do.
#[derive(Debug, Clone, Copy)]
pub struct RadioCapabilities {
    pub discovery_only: bool,
    pub metered: bool,
    pub max_frame_size: usize,
}

/// The LAN TCP data transport.
#[derive(Debug, Default)]
pub struct LanTcpTransport;

impl LanTcpTransport {
    /// The transport's name.
    pub fn name(&self) -> (name: &'static str)
        ensures
            name@ == "lan-tcp"@,
    {
        "lan-tcp"
    }
}

/// Whether the text contains the character.
pub open spec fn contains_char(s: Seq<char>, c: char) -> bool {
    exists|i: int| 0 <= i < s.len() && s[i] == c
}

fn has_char(s: &str, c: char) -> (found: bool)
    ensures
        found == contains_char(s@, c),
{
    let n = s.unicode_len();
    let mut i: usize = 0;
    while i < n
        invariant
            n == s@.len(),
            i <= n,
            forall|k: int| 0 <= k < i ==> s@[k] != c,
        decreases n - i,
    {
        if s.get_char(i) == c {
            return true;
        }
        i = i + 1;
    }
    false
}

/// `host:port`, with the host in brackets when it contains a colon (IPv6).
pub open spec fn address_for(host: Seq<char>, port: u16) -> Seq<char> {
    if contains_char(host, ':') {
        seq!['['] + host + seq![']', ':'] + decimal_nat(port as nat)
    } else {
        host + seq![':'] + decimal_nat(port as nat)
    }
}

/// The socket address text of an endpoint.
pub fn format_address(endpoint: &PeerEndpoint) -> (address: String)
    ensures
        address@ == address_for(endpoint.host@, endpoint.port),
{
    let mut address = String::new();
    if has_char(endpoint.host.as_str(), ':') {
        push_char(&mut address, '[');
        address.append(endpoint.host.as_str());
        push_char(&mut address, ']');
    } else {
        address.append(endpoint.host.as_str());
    }
    push_char(&mut address, ':');
    push_decimal(&mut address, endpoint.port as u64);
    assert(address@ =~= address_for(endpoint.host@, endpoint.port));
    address
}

/// The mDNS service type of Nexus nodes.
pub open spec fn service_type() -> Seq<char> {
    "_nexus-p2p._tcp.local."@
}

/// The mDNS service type of Nexus nodes.
pub fn service_type_name() -> (name: &'static str)
    ensures
        name@ == service_type(),
{
    "_nexus-p2p._tcp.local."
}

/// The host name a node advertises: its device id under `.local.`.
pub fn service_host(device_id: &DeviceId) -> (host: String)
    ensures
        host@ == device_id.0@ + ".local."@,
{
    device_id.0.clone().concat(".local.")
}

/// The instance name a node advertises: `nexus-` and the first eight bytes
/// of its device id, which must end on a character boundary.
pub fn service_instance(device_id: &DeviceId) -> (instance: String)
    requires
        is_char_boundary(encode_utf8(device_id.0@), 8),
    ensures
        encode_utf8(instance@) == encode_utf8("nexus-"@) + encode_utf8(device_id.0@).subrange(0, 8),
{
    let prefix = byte_prefix(device_id.0.as_str(), 8);
    let instance = String::from_str("nexus-").concat(prefix.as_str());
    proof {
        lemma_encode_utf8_concat("nexus-"@, prefix@);
    }
    instance
}

/// The TXT properties a node advertises: id, name, both public keys in hex,
/// and the protocol version.
pub fn service_properties(identity: &PublicIdentity) -> (properties: Vec<(String, String)>)
    ensures
        properties@.len() == 5,
        properties@[0].0@ == "id"@ && properties@[0].1@ == identity.device_id.0@,
        properties@[1].0@ == "name"@ && properties@[1].1@ == identity.display_name@,
        properties@[2].0@ == "sign"@ && properties@[2].1@ == hex_lower(identity.signing_public_key@),
        properties@[3].0@ == "exchange"@ && properties@[3].1@ == hex_lower(identity.exchange_public_key@),
        properties@[4].0@ == "v"@ && properties@[4].1@ == decimal_nat(PROTOCOL_VERSION as nat),
{
    let mut version = String::new();
    push_decimal(&mut version, PROTOCOL_VERSION as u64);
    let mut properties: Vec<(String, String)> = Vec::new();
    properties.push((String::from_str("id"), identity.device_id.0.clone()));
    properties.push((String::from_str("name"), identity.display_name.clone()));
    properties.push((String::from_str("sign"), hex_encode(identity.signing_public_key.as_slice())));
    properties.push((String::from_str("exchange"), hex_encode(identity.exchange_public_key.as_slice())));
    properties.push((String::from_str("v"), version));
    properties
}

/// The text without any trailing dots.
pub open spec fn strip_trailing_dots(s: Seq<char>) -> Seq<char>
    decreases s.len(),
{
    if s.len() > 0 && s.last() == '.' {
        strip_trailing_dots(s.drop_last())
    } else {
        s
    }
}

proof fn lemma_strip_trailing_dots(s: Seq<char>, j: int)
    requires
        0 <= j <= s.len(),
        forall|k: int| j <= k < s.len() ==> #[trigger] s[k] == '.',
    ensures
        strip_trailing_dots(s) == strip_trailing_dots(s.subrange(0, j)),
    decreases s.len() - j,
{
    if j < s.len() {
        lemma_strip_trailing_dots(s.drop_last(), j);
        assert(s.drop_last().subrange(0, j) =~= s.subrange(0, j));
    } else {
        assert(s.subrange(0, j) =~= s);
    }
}

/// `str::trim_end_matches('.')`.
pub fn trim_trailing_dots(s: &str) -> (t: String)
    ensures
        t@ == strip_trailing_dots(s@),
{
    let n = s.unicode_len();
    let mut j: usize = n;
    while j > 0 && s.get_char(j - 1) == '.'
        invariant
            n == s@.len(),
            j <= n,
            forall|k: int| j <= k < n ==> #[trigger] s@[k] == '.',
        decreases j,
    {
        j = j - 1;
    }
    proof {
        lemma_strip_trailing_dots(s@, j as int);
    }
    s.substring_char(0, j).to_owned()
}

/// The 32 bytes that hexadecimal text decodes to, if it decodes to exactly 32.
pub open spec fn hex_key(text: Seq<char>) -> Option<Seq<u8>> {
    match hex_decoded(text) {
        Some(b) => if b.len() == 32 { Some(b) } else { None },
        None => None,
    }
}

fn decode_key(text: &str) -> (key: Option<[u8; 32]>)
    ensures
        match key {
            Some(k) => hex_key(text@) == Some(k@),
            None => hex_key(text@) is None,
        },
{
    let bytes = match hex_decode(text) {
        Some(b) => b,
        None => return None,
    };
    if bytes.len() != 32 {
        return None;
    }
    let mut key = [0u8; 32];
    let mut i: usize = 0;
    while i < 32
        invariant
            bytes@.len() == 32,
            i <= 32,
            forall|k: int| 0 <= k < i ==> key@[k] == bytes@[k],
        decreases 32 - i,
    {
        key[i] = bytes[i];
        i = i + 1;
    }
    assert(key@ =~= bytes@);
    Some(key)
}

/// What a resolved service announces, if it is another node with a complete,
/// well-formed announcement and a host name: its id, name, keys decoded from
/// hex (32 bytes each), and the host name without trailing dots.
pub open spec fn announced(
    local_id: Seq<char>,
    id: Option<Seq<char>>,
    name: Option<Seq<char>>,
    sign: Option<Seq<char>>,
    exchange: Option<Seq<char>>,
    hostname: Seq<char>,
) -> Option<(Seq<char>, Seq<char>, Seq<u8>, Seq<u8>, Seq<char>)> {
    match (id, name, sign, exchange) {
        (Some(id), Some(name), Some(sign), Some(exchange)) => {
            if id == local_id {
                None
            } else {
                match (hex_key(sign), hex_key(exchange)) {
                    (Some(s), Some(x)) => {
                        if strip_trailing_dots(hostname).len() == 0 {
                            None
                        } else {
                            Some((id, name, s, x, strip_trailing_dots(hostname)))
                        }
                    },
                    _ => None,
                }
            }
        },
        _ => None,
    }
}

/// The view of an optional string.
pub open spec fn opt_text(s: Option<String>) -> Option<Seq<char>> {
    match s {
        Some(t) => Some(t@),
        None => None,
    }
}

/// Turns a resolved mDNS service into a discovery event: services without an
/// id, the node's own service, incomplete or malformed announcements and
/// services without a host name are ignored.
pub fn resolved_service_event(
    local_id: &DeviceId,
    id: Option<String>,
    name: Option<String>,
    sign: Option<String>,
    exchange: Option<String>,
    hostname: &str,
    port: u16,
) -> (event: Option<TransportEvent>)
    ensures
        match announced(local_id.0@, opt_text(id), opt_text(name), opt_text(sign), opt_text(exchange), hostname@) {
            None => event is None,
            Some((i, n, s, x, h)) => event matches Some(TransportEvent::Discovered { endpoint, announcement }) && {
                &&& announcement.device_id.0@ == i
                &&& announcement.display_name@ == n
                &&& announcement.signing_public_key@ == s
                &&& announcement.exchange_public_key@ == x
                &&& endpoint.host@ == h
                &&& endpoint.port == port
            },
        },
{
    let id = match id {
        Some(id) => id,
        None => return None,
    };
    if id == local_id.0 {
        return None;
    }
    let (name, sign, exchange) = match (name, sign, exchange) {
        (Some(n), Some(s), Some(x)) => (n, s, x),
        _ => return None,
    };
    let (signing_public_key, exchange_public_key) = match (decode_key(sign.as_str()), decode_key(exchange.as_str())) {
        (Some(s), Some(x)) => (s, x),
        _ => return None,
    };
    let host = trim_trailing_dots(hostname);
    if host.as_str().is_empty() {
        return None;
    }
    Some(TransportEvent::Discovered {
        endpoint: PeerEndpoint { host, port },
        announcement: PublicIdentity {
            device_id: DeviceId(id),
            display_name: name,
            signing_public_key,
            exchange_public_key,
        },
    })
}

/// The text after a prefix, if the text starts with it.
pub open spec fn after_prefix(s: Seq<char>, prefix: Seq<char>) -> Option<Seq<char>> {
    if prefix.len() <= s.len() && s.subrange(0, prefix.len() as int) == prefix {
        Some(s.subrange(prefix.len() as int, s.len() as int))
    } else {
        None
    }
}

/// The text up to its first dot (all of it when there is none).
pub open spec fn before_dot(s: Seq<char>) -> Seq<char> {
    if contains_char(s, '.') {
        s.subrange(0, choose|i: int| 0 <= i < s.len() && s[i] == '.' && forall|k: int| 0 <= k < i ==> s[k] != '.')
    } else {
        s
    }
}

/// Turns a removed mDNS service's full name into a lost-peer event: the part
/// of the name after `nexus-` and before the first dot.
pub fn removed_service_event(fullname: &str) -> (event: Option<TransportEvent>)
    ensures
        match after_prefix(fullname@, "nexus-"@) {
            None => event is None,
            Some(rest) => event matches Some(TransportEvent::Lost { device_id }) && device_id.0@
                == before_dot(rest),
        },
{
    let prefix = "nexus-";
    proof {
        reveal_strlit("nexus-");
    }
    let n = fullname.unicode_len();
    let p = prefix.unicode_len();
    if p > n {
        return None;
    }
    let head = fullname.substring_char(0, p);
    let mut same = true;
    let mut i: usize = 0;
    while i < p
        invariant
            p == prefix@.len(),
            p <= n,
            n == fullname@.len(),
            head@ == fullname@.subrange(0, p as int),
            i <= p,
            same == (forall|k: int| 0 <= k < i ==> head@[k] == prefix@[k]),
        decreases p - i,
    {
        if head.get_char(i) != prefix.get_char(i) {
            same = false;
        }
        i = i + 1;
    }
    if !same {
        assert(head@ != prefix@ ==> exists|k: int| 0 <= k < p && head@[k] != prefix@[k]);
        return None;
    }
    assert(head@ =~= prefix@);
    let rest = fullname.substring_char(p, n);
    let m = rest.unicode_len();
    let mut j: usize = 0;
    while j < m && rest.get_char(j) != '.'
        invariant
            m == rest@.len(),
            j <= m,
            forall|k: int| 0 <= k < j ==> rest@[k] != '.',
        decreases m - j,
    {
        j = j + 1;
    }
    proof {
        if j < m {
            let w = choose|i: int| 0 <= i < rest@.len() && rest@[i] == '.' && forall|k: int| 0 <= k < i ==> rest@[k] != '.';
            assert(contains_char(rest@, '.'));
            if w < j {
                assert(rest@[w] != '.');
            }
            if j < w {
                assert(rest@[j as int] == '.');
            }
            assert(w == j);
        } else {
            assert(rest@.subrange(0, j as int) =~= rest@);
        }
    }
    Some(TransportEvent::Lost { device_id: DeviceId(rest.substring_char(0, j).to_owned()) })
}

} // verus!
