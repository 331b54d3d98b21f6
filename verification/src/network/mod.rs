use vstd::prelude::*;

pub mod address;
pub mod connection;
pub mod discovery;
pub mod file_transfer;
pub mod framing;
pub mod protocol;
pub mod socket;
pub mod traversal;
pub mod wire;

verus! {

/// TCP port a node listens on unless configured otherwise.
pub const DEFAULT_TCP_PORT: u16 = 45678;
/// UDP port a node listens on unless configured otherwise.
pub const DEFAULT_UDP_PORT: u16 = 45679;
/// Most concurrent connections unless configured otherwise.
pub const DEFAULT_MAX_CONNECTIONS: usize = 50;

/// Configuration for the network layer.
#[derive(Debug, Clone, Copy, PartialEq, Eq, Structural)]
pub struct NetworkConfig {
    /// The port to listen on for TCP connections
    pub tcp_port: u16,
    /// The port to listen on for UDP messages
    pub udp_port: u16,
    /// Maximum number of concurrent connections
    pub max_connections: usize,
}

impl Default for NetworkConfig {
    fn default() -> (c: Self)
        ensures
            c.tcp_port == DEFAULT_TCP_PORT,
            c.udp_port == DEFAULT_UDP_PORT,
            c.max_connections == DEFAULT_MAX_CONNECTIONS,
    {
        NetworkConfig {
            tcp_port: DEFAULT_TCP_PORT,
            udp_port: DEFAULT_UDP_PORT,
            max_connections: DEFAULT_MAX_CONNECTIONS,
        }
    }
}

} // verus!
