use vstd::prelude::*;

verus! {

/// Errors of the socket layer.
#[derive(Debug, Clone, PartialEq, Eq)]
pub enum SocketError {
    /// A socket could not be bound, or is not bound yet.
    BindError(String),
    /// A connection failed.
    ConnectionError(String),
    /// An I/O operation failed; its message.
    IoError(String),
}

/// Which of a node's sockets are bound.
#[derive(Debug, Clone, Copy, PartialEq, Eq, Structural)]
pub struct SocketState {
    pub tcp_bound: bool,
    pub udp_bound: bool,
}

/// The error text for a socket that is not bound yet.
pub open spec fn not_initialized_text(tcp: bool) -> Seq<char> {
    if tcp {
        "TCP listener not initialized"@
    } else {
        "UDP socket not initialized"@
    }
}

impl SocketState {
    /// No socket bound.
    pub fn new() -> (s: Self)
        ensures
            !s.tcp_bound && !s.udp_bound,
    {
        SocketState { tcp_bound: false, udp_bound: false }
    }

    /// `None` where neither socket is bound, else which ones are.
    pub fn get_status(&self) -> (r: Option<(bool, bool)>)
        ensures
            !self.tcp_bound && !self.udp_bound ==> r is None,
            self.tcp_bound || self.udp_bound ==> r == Some((self.tcp_bound, self.udp_bound)),
    {
        if !self.tcp_bound && !self.udp_bound {
            None
        } else {
            Some((self.tcp_bound, self.udp_bound))
        }
    }

    /// Whether both sockets are bound, as listening needs.
    pub fn fully_initialized(&self) -> (b: bool)
        ensures
            b == (self.tcp_bound && self.udp_bound),
    {
        match self.get_status() {
            Some((tcp, udp)) => tcp && udp,
            None => false,
        }
    }

    /// Checks that listening can start: the TCP listener is checked first,
    /// then the UDP socket; a missing one is a bind error that names it.
    pub fn check_listening(&self) -> (r: Result<(), SocketError>)
        ensures
            !self.tcp_bound ==> (r matches Err(SocketError::BindError(t)) && t@ == not_initialized_text(true)),
            self.tcp_bound && !self.udp_bound ==> (r matches Err(SocketError::BindError(t)) && t@ == not_initialized_text(false)),
            self.tcp_bound && self.udp_bound ==> r is Ok,
    {
        if !self.tcp_bound {
            return Err(SocketError::BindError("TCP listener not initialized".to_owned()));
        }
        if !self.udp_bound {
            return Err(SocketError::BindError("UDP socket not initialized".to_owned()));
        }
        Ok(())
    }

    /// Checks that the UDP socket is bound, as sending needs.
    pub fn check_udp(&self) -> (r: Result<(), SocketError>)
        ensures
            !self.udp_bound ==> (r matches Err(SocketError::BindError(t)) && t@ == not_initialized_text(false)),
            self.udp_bound ==> r is Ok,
    {
        if !self.udp_bound {
            return Err(SocketError::BindError("UDP socket not initialized".to_owned()));
        }
        Ok(())
    }

    /// Checks that the TCP listener is bound, as reading its address needs.
    pub fn check_tcp(&self) -> (r: Result<(), SocketError>)
        ensures
            !self.tcp_bound ==> (r matches Err(SocketError::BindError(t)) && t@ == not_initialized_text(true)),
            self.tcp_bound ==> r is Ok,
    {
        if !self.tcp_bound {
            return Err(SocketError::BindError("TCP listener not initialized".to_owned()));
        }
        Ok(())
    }
}

} // verus!
