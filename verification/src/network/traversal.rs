use vstd::prelude::*;

use crate::network::address::{IpAddress, PeerAddress};

verus! {

/// UDP packets sent to open a NAT mapping towards a peer.
pub const HOLE_PUNCH_PACKETS: u32 = 3;
/// Milliseconds between two hole-punching packets.
pub const HOLE_PUNCH_INTERVAL_MS: u64 = 100;
/// Seconds to wait for a STUN server's answer.
pub const STUN_TIMEOUT_SECS: u64 = 5;
/// Fewest bytes of a STUN answer that is read.
pub const STUN_MIN_RESPONSE_LEN: usize = 20;

/// Errors of NAT traversal.
#[derive(Debug, Clone, PartialEq, Eq, Structural)]
pub enum NatError {
    /// An answer that is no STUN binding success.
    InvalidStunResponse,
    /// No STUN server gave an answer.
    AllServersFailed,
}

/// The STUN binding request that is sent to a server.
pub open spec fn binding_request_spec() -> Seq<u8> {
    seq![0x00u8, 0x01u8, 0x00u8, 0x00u8]
}

/// Whether an answer is read as a binding success: at least the minimum
/// length, starting with the bytes `0x01 0x01`.
pub open spec fn is_binding_success(b: Seq<u8>) -> bool {
    b.len() >= STUN_MIN_RESPONSE_LEN && b[0] == 0x01 && b[1] == 0x01
}

/// The address a binding success carries: the port big-endian in bytes
/// 2 and 3, the IPv4 octets in bytes 4 to 7.
pub open spec fn mapped_address(b: Seq<u8>) -> PeerAddress {
    PeerAddress { ip: IpAddress::V4(b[4], b[5], b[6], b[7]), port: (b[2] as nat * 256 + b[3] as nat) as u16 }
}

/// The STUN binding request.
pub fn binding_request() -> (r: Vec<u8>)
    ensures
        r@ == binding_request_spec(),
{
    let r: Vec<u8> = vec![0x00u8, 0x01u8, 0x00u8, 0x00u8];
    assert(r@ == binding_request_spec());
    r
}

/// Reads the public address out of a STUN server's answer.
pub fn parse_stun_response(b: &[u8]) -> (r: Result<PeerAddress, NatError>)
    ensures
        is_binding_success(b@) ==> r == Ok::<PeerAddress, NatError>(mapped_address(b@)),
        !is_binding_success(b@) ==> r == Err::<PeerAddress, NatError>(NatError::InvalidStunResponse),
{
    if b.len() >= STUN_MIN_RESPONSE_LEN && b[0] == 0x01 && b[1] == 0x01 {
        let port: u16 = (b[2] as u16) * 256 + (b[3] as u16);
        Ok(PeerAddress { ip: IpAddress::V4(b[4], b[5], b[6], b[7]), port })
    } else {
        Err(NatError::InvalidStunResponse)
    }
}

/// What to do next while asking STUN servers for the public address.
#[derive(Debug, Clone, Copy, PartialEq, Eq, Structural)]
pub enum StunStep {
    /// Ask the server at this index of the list.
    Query(usize),
    /// The public address was found.
    Found(PeerAddress),
    /// Every server failed.
    GiveUp,
}

/// Discovers the public address through STUN servers and opens NAT
/// mappings by hole punching.
pub struct NatTraversal {
    stun_servers: Vec<String>,
    hole_punching_enabled: bool,
}

impl NatTraversal {
    /// The STUN servers, in the order they are asked.
    pub closed spec fn servers(&self) -> Seq<Seq<char>> {
        self.stun_servers@.map_values(|s: String| s@)
    }

    /// Whether hole punching is done.
    pub closed spec fn punching(&self) -> bool {
        self.hole_punching_enabled
    }

    /// Traversal through the given STUN servers, with hole punching on.
    pub fn new(stun_servers: Vec<String>) -> (t: Self)
        ensures
            t.servers() == stun_servers@.map_values(|s: String| s@),
            t.punching(),
    {
        NatTraversal { stun_servers, hole_punching_enabled: true }
    }

    /// Turns hole punching on or off.
    pub fn enable_hole_punching(&mut self, enabled: bool)
        ensures
            final(self).punching() == enabled,
            final(self).servers() == old(self).servers(),
    {
        self.hole_punching_enabled = enabled;
    }

    /// Whether hole punching is done.
    pub fn hole_punching_enabled(&self) -> (b: bool)
        ensures
            b == self.punching(),
    {
        self.hole_punching_enabled
    }

    /// The STUN servers, in the order they are asked.
    pub fn stun_servers(&self) -> (r: &Vec<String>)
        ensures
            r@.map_values(|s: String| s@) == self.servers(),
    {
        &self.stun_servers
    }

    /// How many packets hole punching sends: none when it is off.
    pub fn hole_punch_packet_count(&self) -> (n: u32)
        ensures
            n == (if self.punching() { HOLE_PUNCH_PACKETS } else { 0 }),
    {
        if self.hole_punching_enabled {
            HOLE_PUNCH_PACKETS
        } else {
            0
        }
    }

    /// The first step of the search for the public address: the first
    /// server, or giving up where there is none.
    pub fn first_stun_step(&self) -> (step: StunStep)
        ensures
            self.servers().len() > 0 ==> step == StunStep::Query(0),
            self.servers().len() == 0 ==> step == StunStep::GiveUp,
    {
        if self.stun_servers.len() > 0 {
            StunStep::Query(0)
        } else {
            StunStep::GiveUp
        }
    }

    /// The step after the server at `index` answered `answer` (`None` when
    /// it failed): the address it gave, else the next server, else giving
    /// up.
    pub fn next_stun_step(&self, index: usize, answer: Option<PeerAddress>) -> (step: StunStep)
        requires
            index < self.servers().len(),
        ensures
            answer matches Some(a) ==> step == StunStep::Found(a),
            answer is None && index + 1 < self.servers().len() ==> step == StunStep::Query((index + 1) as usize),
            answer is None && index + 1 >= self.servers().len() ==> step == StunStep::GiveUp,
    {
        match answer {
            Some(a) => StunStep::Found(a),
            None => {
                assert(self.servers().len() == self.stun_servers@.len());
                let n = self.stun_servers.len();
                if index < n - 1 {
                    StunStep::Query(index + 1)
                } else {
                    StunStep::GiveUp
                }
            },
        }
    }
}

impl Default for NatTraversal {
    /// Google's three public STUN servers, with hole punching on.
    fn default() -> (t: Self)
        ensures
            t.servers() == seq![
                "stun.l.google.com:19302"@,
                "stun1.l.google.com:19302"@,
                "stun2.l.google.com:19302"@,
            ],
            t.punching(),
    {
        let mut servers: Vec<String> = Vec::new();
        servers.push("stun.l.google.com:19302".to_owned());
        servers.push("stun1.l.google.com:19302".to_owned());
        servers.push("stun2.l.google.com:19302".to_owned());
        let t = NatTraversal::new(servers);
        assert(t.servers() =~= seq![
            "stun.l.google.com:19302"@,
            "stun1.l.google.com:19302"@,
            "stun2.l.google.com:19302"@,
        ]);
        t
    }
}

} // verus!
