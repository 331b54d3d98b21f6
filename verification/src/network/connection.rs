use vstd::prelude::*;
use std::collections::HashMap;

use crate::ids::{new_uuid, Id};
use crate::keys::{lemma_take_one_more, map_keys};
use crate::network::address::PeerAddress;
use crate::network::socket::{SocketError, SocketState};

verus! {

broadcast use vstd::std_specs::hash::group_hash_axioms;

/// Errors of connection management.
#[derive(Debug, Clone, PartialEq, Eq)]
pub enum ConnectionError {
    /// No connection has this id.
    NotFound(Id),
    /// A connection with this id exists already.
    AlreadyExists(Id),
    /// The socket layer failed.
    SocketError(SocketError),
    /// An I/O operation failed: its kind and message.
    IoError(IoErrorKind, String),
    /// As many connections are open as allowed.
    ConnectionLimitReached,
    /// Handing data to the connection's writer failed; its message.
    SendError(String),
}

/// The kind of a failed I/O operation.
#[derive(Debug, Clone, Copy, PartialEq, Eq, Structural)]
pub enum IoErrorKind {
    /// The connection has no stream, or it was not started.
    NotConnected,
    /// The peer refused the connection.
    ConnectionRefused,
    /// The peer reset the connection.
    ConnectionReset,
    /// The operation timed out.
    TimedOut,
    /// The stream ended before the data expected.
    UnexpectedEof,
    /// Any other failure.
    Other,
}

/// Status of a peer connection.
#[derive(Debug, Clone, Copy, PartialEq, Eq, Structural)]
pub enum ConnectionStatus {
    Connecting,
    Connected,
    Disconnecting,
    Disconnected,
}

/// A connection to a peer, as the manager keeps it: the stream and the
/// writer's channel themselves are the caller's; this records whether the
/// connection has a stream not yet started, and whether it was started.
#[derive(Debug, Clone, Copy, PartialEq, Eq, Structural)]
pub struct PeerConnection {
    /// Unique identifier for this connection
    pub id: Id,
    /// Remote peer address
    pub addr: PeerAddress,
    /// Current connection status
    pub status: ConnectionStatus,
    /// Whether a TCP stream is waiting to be started
    pub has_stream: bool,
    /// Whether the connection's reader and writer were started
    pub started: bool,
}

/// The error text for a connection with no stream to start.
pub open spec fn no_stream_text() -> Seq<char> {
    "No TCP stream available"@
}

/// The error text for sending on a connection not started.
pub open spec fn not_started_text() -> Seq<char> {
    "Connection not started"@
}

impl PeerConnection {
    /// A new connection to `addr` with a fresh random id, connecting.
    pub fn new(addr: PeerAddress, has_stream: bool) -> (c: Self)
        ensures
            c.addr == addr,
            c.status == ConnectionStatus::Connecting,
            c.has_stream == has_stream,
            !c.started,
    {
        PeerConnection {
            id: new_uuid(),
            addr,
            status: ConnectionStatus::Connecting,
            has_stream,
            started: false,
        }
    }

    /// Starts the connection: its stream is handed to a reader and a
    /// writer and it is connected. Without a stream this is an I/O error
    /// and nothing changes.
    pub fn start(&mut self) -> (r: Result<(), ConnectionError>)
        ensures
            !old(self).has_stream ==> (r matches Err(ConnectionError::IoError(IoErrorKind::NotConnected, t)) && t@ == no_stream_text()
                && *final(self) == *old(self)),
            old(self).has_stream ==> r is Ok && *final(self) == (PeerConnection {
                status: ConnectionStatus::Connected,
                has_stream: false,
                started: true,
                ..*old(self)
            }),
    {
        if !self.has_stream {
            return Err(ConnectionError::IoError(IoErrorKind::NotConnected, "No TCP stream available".to_owned()));
        }
        self.has_stream = false;
        self.started = true;
        self.status = ConnectionStatus::Connected;
        Ok(())
    }

    /// Checks that data can be sent: the connection must have been started.
    pub fn send(&self) -> (r: Result<(), ConnectionError>)
        ensures
            self.started ==> r is Ok,
            !self.started ==> (r matches Err(ConnectionError::IoError(IoErrorKind::NotConnected, t)) && t@ == not_started_text()),
    {
        if self.started {
            Ok(())
        } else {
            Err(ConnectionError::IoError(IoErrorKind::NotConnected, "Connection not started".to_owned()))
        }
    }
}

/// What connecting to an address calls for.
#[derive(Debug, Clone, Copy, PartialEq, Eq, Structural)]
pub enum ConnectPlan {
    /// As many connections are open as allowed.
    LimitReached,
    /// A connected connection to the address exists already: its id.
    Existing(Id),
    /// A new connection must be dialled.
    Dial,
}

/// Connections to peers, by id, up to a limit.
pub struct ConnectionManager {
    connections: HashMap<Id, PeerConnection>,
    max_connections: usize,
}

impl View for ConnectionManager {
    type V = Map<Id, PeerConnection>;

    closed spec fn view(&self) -> Map<Id, PeerConnection> {
        self.connections@
    }
}

impl ConnectionManager {
    /// The most connections allowed.
    pub closed spec fn limit(&self) -> nat {
        self.max_connections as nat
    }

    /// Whether each connection is kept under its own id.
    pub closed spec fn wf(&self) -> bool {
        forall|k: Id| #[trigger] self.connections@.contains_key(k) ==> self.connections@[k].id == k
    }

    /// A manager with no connections and the given limit.
    pub fn new(max_connections: usize) -> (m: Self)
        ensures
            m@ == Map::<Id, PeerConnection>::empty(),
            m.limit() == max_connections,
            m.wf(),
    {
        ConnectionManager { connections: HashMap::new(), max_connections }
    }

    /// The number of connections.
    pub fn connection_count(&self) -> (n: usize)
        ensures
            n == self@.len(),
    {
        self.connections.len()
    }

    /// Whether another incoming connection may be accepted: fewer
    /// connections than the limit.
    pub fn accepts_incoming(&self) -> (b: bool)
        ensures
            b == (self@.len() < self.limit()),
    {
        self.connections.len() < self.max_connections
    }

    /// What connecting to `addr` calls for: nothing while the limit is
    /// reached; a connected connection to `addr` where one exists; else a
    /// new one.
    pub fn plan_connect(&self, addr: PeerAddress) -> (p: ConnectPlan)
        requires
            self.wf(),
        ensures
            self@.len() >= self.limit() ==> p == ConnectPlan::LimitReached,
            self@.len() < self.limit() ==> match p {
                ConnectPlan::LimitReached => false,
                ConnectPlan::Existing(id) => self@.contains_key(id) && self@[id].addr == addr
                    && self@[id].status == ConnectionStatus::Connected,
                ConnectPlan::Dial => forall|id: Id| #[trigger] self@.contains_key(id)
                    ==> !(self@[id].addr == addr && self@[id].status == ConnectionStatus::Connected),
            },
    {
        if self.connections.len() >= self.max_connections {
            return ConnectPlan::LimitReached;
        }
        let keys = map_keys(&self.connections);
        let mut i: usize = 0;
        while i < keys.len()
            invariant
                i <= keys@.len(),
                self.wf(),
                self@.len() < self.limit(),
                forall|j: int| 0 <= j < keys@.len() ==> self@.contains_key(#[trigger] keys@[j]),
                forall|k: Id| self@.contains_key(k) ==> keys@.contains(k),
                forall|k: Id| #[trigger] keys@.take(i as int).contains(k) ==> !(self@[k].addr == addr
                    && self@[k].status == ConnectionStatus::Connected),
            decreases keys@.len() - i,
        {
            let k = keys[i];
            proof { lemma_take_one_more(keys@, i as int); }
            match self.connections.get(&k) {
                Some(c) => {
                    if c.addr == addr && c.status == ConnectionStatus::Connected {
                        return ConnectPlan::Existing(c.id);
                    }
                },
                None => {},
            }
            i = i + 1;
        }
        assert(keys@.take(i as int) == keys@);
        assert forall|id: Id| #[trigger] self@.contains_key(id) implies !(self@[id].addr == addr && self@[id].status == ConnectionStatus::Connected) by {
            assert(keys@.contains(id));
            assert(keys@.take(i as int).contains(id));
        }
        ConnectPlan::Dial
    }

    /// Checks that the manager can start accepting connections: both of
    /// the node's sockets must be bound.
    pub fn check_sockets(sockets: &SocketState) -> (r: Result<(), ConnectionError>)
        ensures
            sockets.tcp_bound && sockets.udp_bound ==> r is Ok,
            !(sockets.tcp_bound && sockets.udp_bound) ==> (r matches Err(ConnectionError::SocketError(SocketError::BindError(t)))
                && t@ == "Sockets not fully initialized"@),
    {
        if sockets.fully_initialized() {
            Ok(())
        } else {
            Err(ConnectionError::SocketError(SocketError::BindError("Sockets not fully initialized".to_owned())))
        }
    }

    /// Keeps a started connection under its id.
    pub fn add_connection(&mut self, conn: PeerConnection)
        requires
            old(self).wf(),
        ensures
            final(self)@ == old(self)@.insert(conn.id, conn),
            final(self).limit() == old(self).limit(),
            final(self).wf(),
    {
        self.connections.insert(conn.id, conn);
    }

    /// Disconnects: the connection is marked disconnecting, dropped, and
    /// handed back as it was left. An unknown id is an error.
    pub fn disconnect(&mut self, conn_id: Id) -> (r: Result<PeerConnection, ConnectionError>)
        requires
            old(self).wf(),
        ensures
            final(self).wf(),
            old(self)@.contains_key(conn_id) ==> (r matches Ok(c) && c == (PeerConnection {
                status: ConnectionStatus::Disconnecting,
                ..old(self)@[conn_id]
            }) && final(self)@ == old(self)@.remove(conn_id)),
            !old(self)@.contains_key(conn_id) ==> r == Err::<PeerConnection, ConnectionError>(ConnectionError::NotFound(conn_id))
                && final(self)@ == old(self)@,
            final(self).limit() == old(self).limit(),
    {
        match self.connections.get(&conn_id) {
            Some(c) => {
                let mut closing = *c;
                closing.status = ConnectionStatus::Disconnecting;
                self.connections.insert(conn_id, closing);
                self.connections.remove(&conn_id);
                assert(self@ =~= old(self)@.remove(conn_id));
                Ok(closing)
            },
            None => Err(ConnectionError::NotFound(conn_id)),
        }
    }

    /// Checks that data can be sent on a connection: it must exist and have
    /// been started.
    pub fn send_to(&self, conn_id: Id) -> (r: Result<(), ConnectionError>)
        ensures
            !self@.contains_key(conn_id) ==> r == Err::<(), ConnectionError>(ConnectionError::NotFound(conn_id)),
            self@.contains_key(conn_id) && self@[conn_id].started ==> r is Ok,
            self@.contains_key(conn_id) && !self@[conn_id].started ==> (r matches Err(ConnectionError::IoError(IoErrorKind::NotConnected, t)) && t@ == not_started_text()),
    {
        match self.connections.get(&conn_id) {
            Some(c) => c.send(),
            None => Err(ConnectionError::NotFound(conn_id)),
        }
    }

    /// Every connection's id, address and status, each once, in the map's
    /// iteration order.
    pub fn list_connections(&self) -> (r: Vec<(Id, PeerAddress, ConnectionStatus)>)
        ensures
            r@.len() == self@.len(),
            forall|i: int, j: int| 0 <= i < j < r@.len() ==> r@[i].0 != r@[j].0,
            forall|i: int| 0 <= i < r@.len() ==> self@.contains_key(#[trigger] r@[i].0)
                && r@[i].1 == self@[r@[i].0].addr && r@[i].2 == self@[r@[i].0].status,
            forall|k: Id| self@.contains_key(k) ==> exists|i: int| 0 <= i < r@.len() && #[trigger] r@[i].0 == k,
    {
        let keys = map_keys(&self.connections);
        let mut r: Vec<(Id, PeerAddress, ConnectionStatus)> = Vec::new();
        let mut i: usize = 0;
        while i < keys.len()
            invariant
                i <= keys@.len(),
                keys@.no_duplicates(),
                forall|j: int| 0 <= j < keys@.len() ==> self@.contains_key(#[trigger] keys@[j]),
                forall|k: Id| self@.contains_key(k) ==> keys@.contains(k),
                r@.len() == i,
                forall|j: int| #![trigger r@[j]] 0 <= j < i ==> r@[j] == (keys@[j], self@[keys@[j]].addr, self@[keys@[j]].status),
            decreases keys@.len() - i,
        {
            let k = keys[i];
            assert(self@.contains_key(keys@[i as int]));
            let ghost before = r@;
            if let Some(c) = self.connections.get(&k) {
                assert(*c == self@[k]);
                r.push((k, c.addr, c.status));
            }
            assert(r@.len() == i + 1);
            assert forall|j: int| #![trigger r@[j]] 0 <= j < i + 1 implies r@[j] == (keys@[j], self@[keys@[j]].addr, self@[keys@[j]].status) by {
                if j < i {
                    assert(r@[j] == before[j]);
                }
            }
            i = i + 1;
        }
        assert forall|k: Id| self@.contains_key(k) implies exists|i: int| 0 <= i < r@.len() && #[trigger] r@[i].0 == k by {
            assert(keys@.contains(k));
            let w = choose|w: int| 0 <= w < keys@.len() && keys@[w] == k;
            assert(r@[w].0 == keys@[w]);
        }
        r
    }

    /// A copy of a connection's record, if it exists.
    pub fn get_connection(&self, conn_id: Id) -> (r: Option<PeerConnection>)
        ensures
            r == (if self@.contains_key(conn_id) { Some(self@[conn_id]) } else { None }),
    {
        match self.connections.get(&conn_id) {
            Some(c) => Some(*c),
            None => None,
        }
    }
}

/// A connection added only after the plan allowed it (fewer connections
/// than the limit) keeps the count within the limit.
pub proof fn law_connections_within_limit(m: Map<Id, PeerConnection>, limit: nat, conn: PeerConnection)
    requires
        m.dom().finite(),
        m.len() < limit,
    ensures
        m.insert(conn.id, conn).len() <= limit,
{
    if m.contains_key(conn.id) {
        assert(m.insert(conn.id, conn).dom() =~= m.dom());
    }
}

} // verus!
