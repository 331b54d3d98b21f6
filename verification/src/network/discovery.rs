use vstd::prelude::*;
use std::collections::HashMap;
use vstd::std_specs::iter::IteratorSpec;

use crate::clock::{is_older_than, now, older_than, Timestamp, NANOS_PER_SEC};
use crate::ids::{parse_uuid, uuid_parse, uuid_text, uuid_text_spec, Id};
use crate::keys::{lemma_take_one_more, map_keys};
use crate::bytes::be_bytes;
use crate::transfer::checksum::{hex_digit_spec, hex_text, lemma_hex_text_len, push_char};
use crate::network::address::{IpAddress, PeerAddress};
use crate::network::protocol::ProtocolError;
use crate::network::socket::SocketError;

verus! {

broadcast use vstd::std_specs::hash::group_hash_axioms;

/// Seconds between discovery broadcasts.
pub const DISCOVERY_INTERVAL_SECS: u64 = 30;

/// How long a peer may stay unseen before it counts as lost: three
/// discovery intervals.
pub const PEER_EXPIRATION: u64 = 3 * DISCOVERY_INTERVAL_SECS * NANOS_PER_SEC;

/// Errors of peer discovery.
#[derive(Debug, Clone, PartialEq, Eq)]
pub enum DiscoveryError {
    /// The multicast DNS service failed; its message.
    MdnsError(String),
    SocketError(SocketError),
    ProtocolError(ProtocolError),
    /// An I/O operation failed; its message.
    IoError(String),
}

/// A peer found on the network.
#[derive(Debug, Clone, Copy, PartialEq, Eq, Structural)]
pub struct DiscoveredPeer {
    /// Unique identifier for this peer
    pub id: Id,
    /// Address for connecting to this peer
    pub addr: PeerAddress,
    /// When this peer was last seen
    pub last_seen: Timestamp,
}

/// What discovery reports.
#[derive(Debug, Clone, Copy, PartialEq, Eq, Structural)]
pub enum DiscoveryEvent {
    /// A new peer was discovered
    PeerDiscovered(Id, PeerAddress),
    /// A known peer was lost
    PeerLost(Id),
}

/// The text before the first `.` of a name (all of it where there is none).
pub open spec fn first_label_spec(s: Seq<char>) -> Seq<char>
    decreases s.len(),
{
    if s.len() == 0 {
        s
    } else if s[0] == '.' {
        Seq::empty()
    } else {
        seq![s[0]] + first_label_spec(s.drop_first())
    }
}

/// The first label of a text is the part before the first `.` found at
/// `k`, or all of it where there is none.
proof fn lemma_first_label_at(s: Seq<char>, k: int)
    requires
        0 <= k <= s.len(),
        forall|j: int| 0 <= j < k ==> s[j] != '.',
        k == s.len() || s[k] == '.',
    ensures
        first_label_spec(s) == s.take(k),
    decreases s.len(),
{
    if s.len() == 0 {
        assert(s.take(k) =~= s);
    } else if k == 0 {
        assert(s.take(0) =~= Seq::<char>::empty());
    } else {
        let t = s.drop_first();
        assert forall|j: int| 0 <= j < k - 1 implies t[j] != '.' by {
            assert(t[j] == s[j + 1]);
        }
        if k < s.len() {
            assert(t[k - 1] == s[k]);
        }
        lemma_first_label_at(t, k - 1);
        assert(seq![s[0]] + t.take(k - 1) =~= s.take(k));
    }
}

/// The text before the first `.` of a name, as `str::split('.')` gives
/// its first piece.
fn first_label(s: &str) -> (r: String)
    ensures
        r@ == first_label_spec(s@),
{
    broadcast use vstd::string::group_string_axioms;
    let mut chars = s.chars();
    let mut r = String::new();
    let ghost mut i: int = 0;
    assert(s@.skip(0) =~= s@);
    assert(r@ =~= s@.take(0));
    loop
        invariant
            0 <= i <= s@.len(),
            chars.remaining() == s@.skip(i),
            r@ == s@.take(i),
            forall|j: int| 0 <= j < i ==> s@[j] != '.',
        decreases s@.len() - i,
    {
        let ghost before = chars.remaining();
        match chars.next() {
            None => {
                proof {
                    assert(before.len() == 0);
                    lemma_first_label_at(s@, i);
                }
                return r;
            },
            Some(c) => {
                assert(c == s@[i]);
                if c == '.' {
                    proof {
                        lemma_first_label_at(s@, i);
                    }
                    return r;
                }
                push_char(&mut r, c);
                proof {
                    assert(s@.skip(i).drop_first() =~= s@.skip(i + 1));
                    assert(s@.take(i).push(c) =~= s@.take(i + 1));
                    i = i + 1;
                }
            },
        }
    }
}

/// The peer id that a service's full name carries: its first label read
/// as a UUID.
pub open spec fn service_peer_id(fullname: Seq<char>) -> Option<Id> {
    uuid_parse(first_label_spec(fullname))
}

/// Peers found on the network, by id.
pub struct PeerTable {
    peers: HashMap<Id, DiscoveredPeer>,
}

impl View for PeerTable {
    type V = Map<Id, DiscoveredPeer>;

    closed spec fn view(&self) -> Map<Id, DiscoveredPeer> {
        self.peers@
    }
}

/// The peers still seen within the expiration time at `now`.
pub open spec fn unexpired(m: Map<Id, DiscoveredPeer>, now: Timestamp) -> Map<Id, DiscoveredPeer> {
    m.restrict(m.dom().filter(|k: Id| !older_than(m[k].last_seen, now, PEER_EXPIRATION)))
}

impl PeerTable {
    /// A table with no peers.
    pub fn new() -> (t: Self)
        ensures
            t@ == Map::<Id, DiscoveredPeer>::empty(),
            t.wf(),
    {
        PeerTable { peers: HashMap::new() }
    }

    /// Every known peer, each once, in the table's iteration order.
    pub fn get_peers(&self) -> (r: Vec<DiscoveredPeer>)
        requires
            self.wf(),
        ensures
            r@.len() == self@.len(),
            forall|i: int, j: int| 0 <= i < j < r@.len() ==> r@[i].id != r@[j].id,
            forall|i: int| 0 <= i < r@.len() ==> self@.contains_key(#[trigger] r@[i].id) && self@[r@[i].id] == r@[i],
            forall|k: Id| self@.contains_key(k) ==> exists|i: int| 0 <= i < r@.len() && #[trigger] r@[i] == self@[k],
    {
        let keys = map_keys(&self.peers);
        let mut r: Vec<DiscoveredPeer> = Vec::new();
        let mut i: usize = 0;
        while i < keys.len()
            invariant
                self.wf(),
                i <= keys@.len(),
                keys@.no_duplicates(),
                forall|j: int| 0 <= j < keys@.len() ==> self@.contains_key(#[trigger] keys@[j]),
                forall|k: Id| self@.contains_key(k) ==> keys@.contains(k),
                r@.len() == i,
                forall|j: int| #![trigger r@[j]] 0 <= j < i ==> r@[j] == self@[keys@[j]],
            decreases keys@.len() - i,
        {
            let k = keys[i];
            assert(self@.contains_key(keys@[i as int]));
            let ghost before = r@;
            if let Some(p) = self.peers.get(&k) {
                r.push(*p);
            }
            assert forall|j: int| #![trigger r@[j]] 0 <= j < i + 1 implies r@[j] == self@[keys@[j]] by {
                if j < i {
                    assert(r@[j] == before[j]);
                }
            }
            i = i + 1;
        }
        assert forall|a: int, b: int| 0 <= a < b < r@.len() implies r@[a].id != r@[b].id by {
            assert(r@[a] == self@[keys@[a]]);
            assert(r@[b] == self@[keys@[b]]);
        }
        assert forall|a: int| 0 <= a < r@.len() implies self@.contains_key(#[trigger] r@[a].id) && self@[r@[a].id] == r@[a] by {
            assert(r@[a] == self@[keys@[a]]);
        }
        assert forall|k: Id| self@.contains_key(k) implies exists|i: int| 0 <= i < r@.len() && #[trigger] r@[i] == self@[k] by {
            assert(keys@.contains(k));
            let w = choose|w: int| 0 <= w < keys@.len() && keys@[w] == k;
            assert(r@[w] == self@[keys@[w]]);
        }
        r
    }

    /// Whether every peer is kept under its own id.
    pub closed spec fn wf(&self) -> bool {
        forall|k: Id| #[trigger] self.peers@.contains_key(k) ==> self.peers@[k].id == k
    }

    /// Whether a peer is known.
    pub fn has_peer(&self, peer_id: &Id) -> (b: bool)
        ensures
            b == self@.contains_key(*peer_id),
    {
        self.peers.contains_key(peer_id)
    }

    /// A known peer, if any.
    pub fn get_peer(&self, peer_id: &Id) -> (r: Option<DiscoveredPeer>)
        ensures
            r == (if self@.contains_key(*peer_id) { Some(self@[*peer_id]) } else { None }),
    {
        match self.peers.get(peer_id) {
            Some(p) => Some(*p),
            None => None,
        }
    }

    /// Adds a peer seen now, unless it is known already; says whether it
    /// was added.
    pub fn add_peer(&mut self, id: Id, addr: PeerAddress) -> (added: bool)
        requires
            old(self).wf(),
        ensures
            final(self).wf(),
            added == !old(self)@.contains_key(id),
            !added ==> final(self)@ == old(self)@,
            added ==> final(self)@ == old(self)@.insert(id, DiscoveredPeer { id, addr, last_seen: final(self)@[id].last_seen }),
    {
        let t = now();
        self.add_peer_at(id, addr, t)
    }

    /// Adds a peer seen at `now`, unless it is known already; says whether
    /// it was added.
    pub fn add_peer_at(&mut self, id: Id, addr: PeerAddress, now: Timestamp) -> (added: bool)
        requires
            old(self).wf(),
        ensures
            final(self).wf(),
            added == !old(self)@.contains_key(id),
            !added ==> final(self)@ == old(self)@,
            added ==> final(self)@ == old(self)@.insert(id, DiscoveredPeer { id, addr, last_seen: now }),
    {
        if !self.peers.contains_key(&id) {
            self.peers.insert(id, DiscoveredPeer { id, addr, last_seen: now });
            true
        } else {
            false
        }
    }

    /// Marks a known peer seen now; an unknown peer is ignored.
    pub fn update_peer(&mut self, id: &Id)
        requires
            old(self).wf(),
        ensures
            final(self).wf(),
            !old(self)@.contains_key(*id) ==> final(self)@ == old(self)@,
            old(self)@.contains_key(*id) ==> final(self)@ == old(self)@.insert(*id, DiscoveredPeer { last_seen: final(self)@[*id].last_seen, ..old(self)@[*id] }),
    {
        let t = now();
        self.update_peer_at(id, t)
    }

    /// Marks a known peer seen at `now`; an unknown peer is ignored.
    pub fn update_peer_at(&mut self, id: &Id, now: Timestamp)
        requires
            old(self).wf(),
        ensures
            final(self).wf(),
            !old(self)@.contains_key(*id) ==> final(self)@ == old(self)@,
            old(self)@.contains_key(*id) ==> final(self)@ == old(self)@.insert(*id, DiscoveredPeer { last_seen: now, ..old(self)@[*id] }),
    {
        let updated = match self.peers.get(id) {
            Some(p) => Some(DiscoveredPeer { last_seen: now, ..*p }),
            None => None,
        };
        if let Some(p) = updated {
            self.peers.insert(*id, p);
        }
    }

    /// Handles a resolved service announcement: where the service's name
    /// carries a peer id not known yet, the peer is added, seen at `now`,
    /// and reported discovered.
    pub fn service_resolved(&mut self, fullname: &str, addr: PeerAddress, now: Timestamp) -> (event: Option<DiscoveryEvent>)
        requires
            old(self).wf(),
        ensures
            final(self).wf(),
            match service_peer_id(fullname@) {
                Some(id) => if old(self)@.contains_key(id) {
                    event is None && final(self)@ == old(self)@
                } else {
                    event == Some(DiscoveryEvent::PeerDiscovered(id, addr))
                        && final(self)@ == old(self)@.insert(id, DiscoveredPeer { id, addr, last_seen: now })
                },
                None => event is None && final(self)@ == old(self)@,
            },
    {
        match parse_uuid(first_label(fullname).as_str()) {
            Some(id) => {
                if self.add_peer_at(id, addr, now) {
                    Some(DiscoveryEvent::PeerDiscovered(id, addr))
                } else {
                    None
                }
            },
            None => None,
        }
    }

    /// Handles a removed service: where the service's name carries a known
    /// peer id, the peer is dropped and reported lost.
    pub fn service_removed(&mut self, fullname: &str) -> (event: Option<DiscoveryEvent>)
        requires
            old(self).wf(),
        ensures
            final(self).wf(),
            match service_peer_id(fullname@) {
                Some(id) => if old(self)@.contains_key(id) {
                    event == Some(DiscoveryEvent::PeerLost(id)) && final(self)@ == old(self)@.remove(id)
                } else {
                    event is None && final(self)@ == old(self)@
                },
                None => event is None && final(self)@ == old(self)@,
            },
    {
        match parse_uuid(first_label(fullname).as_str()) {
            Some(id) => {
                if self.peers.remove(&id).is_some() {
                    Some(DiscoveryEvent::PeerLost(id))
                } else {
                    None
                }
            },
            None => None,
        }
    }

    /// Drops every peer unseen for longer than the expiration time at
    /// `now`, and gives back their ids (each once), one lost event each.
    pub fn expire_peers(&mut self, now: Timestamp) -> (lost: Vec<Id>)
        requires
            old(self).wf(),
        ensures
            final(self).wf(),
            final(self)@ == unexpired(old(self)@, now),
            lost@.no_duplicates(),
            lost@.to_set() == old(self)@.dom().filter(|k: Id| older_than(old(self)@[k].last_seen, now, PEER_EXPIRATION)),
    {
        let ghost before = self.peers@;
        let keys = map_keys(&self.peers);
        let mut lost: Vec<Id> = Vec::new();
        let mut i: usize = 0;
        while i < keys.len()
            invariant
                i <= keys@.len(),
                keys@.no_duplicates(),
                forall|j: int| 0 <= j < keys@.len() ==> before.contains_key(#[trigger] keys@[j]),
                forall|k: Id| before.contains_key(k) ==> keys@.contains(k),
                forall|k: Id| #[trigger] self.peers@.contains_key(k) <==> before.contains_key(k)
                    && (!keys@.take(i as int).contains(k) || !older_than(before[k].last_seen, now, PEER_EXPIRATION)),
                forall|k: Id| #[trigger] self.peers@.contains_key(k) ==> self.peers@[k] == before[k],
                lost@.no_duplicates(),
                lost@.to_set() == keys@.take(i as int).to_set().filter(|k: Id| older_than(before[k].last_seen, now, PEER_EXPIRATION)),
            decreases keys@.len() - i,
        {
            let k = keys[i];
            proof {
                lemma_take_one_more(keys@, i as int);
                crate::keys::lemma_take_one_more_set(keys@, i as int);
            }
            let stale = match self.peers.get(&k) {
                Some(p) => is_older_than(p.last_seen, now, PEER_EXPIRATION),
                None => false,
            };
            if stale {
                self.peers.remove(&k);
                proof {
                    if lost@.contains(k) {
                        assert(lost@.to_set().contains(k));
                        let v = choose|v: int| 0 <= v < i && keys@.take(i as int)[v] == k;
                        assert(keys@[v] == keys@[i as int]);
                    }
                }
                let ghost l0 = lost@;
                lost.push(k);
                proof { l0.lemma_push_to_set_commute(k); }
            }
            assert(lost@.to_set() =~= keys@.take(i + 1).to_set().filter(|k: Id| older_than(before[k].last_seen, now, PEER_EXPIRATION)));
            i = i + 1;
        }
        assert(keys@.take(i as int) == keys@);
        assert(self@ =~= unexpired(old(self)@, now));
        assert(lost@.to_set() =~= old(self)@.dom().filter(|k: Id| older_than(old(self)@[k].last_seen, now, PEER_EXPIRATION)));
        lost
    }
}

/// The subnet broadcast address for a local address: the same port, the
/// last octet set to 255. Only for IPv4 addresses outside the loopback
/// network.
pub fn subnet_broadcast(local: PeerAddress) -> (r: Option<PeerAddress>)
    ensures
        match local.ip {
            IpAddress::V4(a, b, c, _) => if a != 127 {
                r == Some(PeerAddress { ip: IpAddress::V4(a, b, c, 255), port: local.port })
            } else {
                r is None
            },
            IpAddress::V6(_) => r is None,
        },
{
    match local.ip {
        IpAddress::V4(a, b, c, _) => {
            if a != 127 {
                Some(PeerAddress { ip: IpAddress::V4(a, b, c, 255), port: local.port })
            } else {
                None
            }
        },
        IpAddress::V6(_) => None,
    }
}

/// The limited broadcast address `255.255.255.255` on a port.
pub fn global_broadcast(port: u16) -> (r: PeerAddress)
    ensures
        r == (PeerAddress { ip: IpAddress::V4(255, 255, 255, 255), port }),
{
    PeerAddress { ip: IpAddress::V4(255, 255, 255, 255), port }
}

/// The instance name a node announces itself under: its id's text.
pub fn instance_name(node_id: Id) -> (s: String)
    ensures
        s@ == uuid_text_spec(node_id),
        uuid_parse(s@) == Some(node_id),
{
    uuid_text(node_id)
}

/// No character of a byte string's hex text is a `.`.
proof fn lemma_hex_text_has_no_dot(bytes: Seq<u8>)
    ensures
        forall|i: int| 0 <= i < hex_text(bytes).len() ==> hex_text(bytes)[i] != '.',
    decreases bytes.len(),
{
    lemma_hex_text_len(bytes);
    if bytes.len() > 0 {
        lemma_hex_text_has_no_dot(bytes.drop_last());
        let hi = bytes.last() / 16;
        let lo = bytes.last() % 16;
        let prev = hex_text(bytes.drop_last());
        let whole = prev.push(hex_digit_spec(hi)).push(hex_digit_spec(lo));
        assert(hex_text(bytes) == whole);
        assert(hex_digit_spec(hi) != '.');
        assert(hex_digit_spec(lo) != '.');
        assert forall|i: int| 0 <= i < whole.len() implies whole[i] != '.' by {
            if i < prev.len() {
                assert(whole[i] == prev[i]);
            }
        }
    }
}

/// The first label of a text without `.`, followed by `.` and anything,
/// is that text.
proof fn lemma_first_label_of_dotted(a: Seq<char>, rest: Seq<char>)
    requires
        forall|i: int| 0 <= i < a.len() ==> a[i] != '.',
    ensures
        first_label_spec(a + seq!['.'] + rest) == a,
    decreases a.len(),
{
    let s = a + seq!['.'] + rest;
    if a.len() == 0 {
        assert(s[0] == '.');
    } else {
        assert(s[0] == a[0]);
        lemma_first_label_of_dotted(a.drop_first(), rest);
        assert(s.drop_first() == a.drop_first() + seq!['.'] + rest);
        assert(a == seq![a[0]] + a.drop_first());
    }
}

/// A node's own announcement, once resolved, is read back as the id that
/// its instance name parses to (which `instance_name` shows is the node's
/// id), whatever labels of the service type follow the name.
pub proof fn law_instance_name_is_read_back(node_id: Id, rest: Seq<char>)
    ensures
        service_peer_id(uuid_text_spec(node_id) + seq!['.'] + rest) == uuid_parse(uuid_text_spec(node_id)),
{
    let h = hex_text(be_bytes(node_id as nat, 16));
    lemma_hex_text_has_no_dot(be_bytes(node_id as nat, 16));
    let t = uuid_text_spec(node_id);
    assert forall|i: int| 0 <= i < t.len() implies t[i] != '.' by {
        lemma_hex_text_len(be_bytes(node_id as nat, 16));
        crate::bytes::lemma_be_bytes_len(node_id as nat, 16);
    }
    lemma_first_label_of_dotted(t, rest);
}

/// A peer that a resolved announcement added is dropped again by the
/// removal of the same service: the table is as it was before.
pub proof fn law_resolve_then_remove(m: Map<Id, DiscoveredPeer>, id: Id, addr: PeerAddress, now: Timestamp)
    requires
        !m.contains_key(id),
    ensures
        m.insert(id, DiscoveredPeer { id, addr, last_seen: now }).remove(id) == m,
{
    assert(m.insert(id, DiscoveredPeer { id, addr, last_seen: now }).remove(id) =~= m);
}

/// Expiry drops exactly the peers unseen for longer than the expiration
/// time; a peer seen after `now` is kept.
pub proof fn law_expiry(m: Map<Id, DiscoveredPeer>, now: Timestamp, id: Id)
    requires
        m.contains_key(id),
    ensures
        unexpired(m, now).contains_key(id) <==> !(m[id].last_seen <= now && now - m[id].last_seen > PEER_EXPIRATION),
        m[id].last_seen > now ==> unexpired(m, now).contains_key(id),
{
}

} // verus!
