use leni_deni::network::address::{IpAddress, PeerAddress};
use leni_deni::network::connection::{
    ConnectPlan, ConnectionError, ConnectionManager, ConnectionStatus, IoErrorKind, PeerConnection,
};
use leni_deni::network::discovery::{
    global_broadcast, instance_name, subnet_broadcast, DiscoveryEvent, PeerTable, PEER_EXPIRATION,
};
use leni_deni::network::framing::{decode_frame, encode_frame, frame_length};
use leni_deni::network::socket::{SocketError, SocketState};
use leni_deni::network::traversal::{
    binding_request, parse_stun_response, NatError, NatTraversal, StunStep, HOLE_PUNCH_PACKETS,
};
use leni_deni::network::{NetworkConfig, DEFAULT_MAX_CONNECTIONS, DEFAULT_TCP_PORT, DEFAULT_UDP_PORT};

fn v4(a: u8, b: u8, c: u8, d: u8, port: u16) -> PeerAddress {
    PeerAddress { ip: IpAddress::V4(a, b, c, d), port }
}

#[test]
fn network_config_defaults() {
    let c = NetworkConfig::default();
    assert_eq!(c.tcp_port, 45678);
    assert_eq!(c.udp_port, 45679);
    assert_eq!(c.max_connections, 50);
    assert_eq!((DEFAULT_TCP_PORT, DEFAULT_UDP_PORT, DEFAULT_MAX_CONNECTIONS), (45678, 45679, 50));
}

#[test]
fn ipv4_address_text() {
    assert_eq!(v4(127, 0, 0, 1, 8080).to_text(), "127.0.0.1:8080");
    assert_eq!(v4(0, 0, 0, 0, 0).to_text(), "0.0.0.0:0");
    assert_eq!(v4(255, 255, 255, 255, 65535).to_text(), "255.255.255.255:65535");
}

#[test]
fn ipv6_address_text() {
    let a = PeerAddress { ip: IpAddress::V6(1), port: 80 };
    assert_eq!(a.to_text(), "[::1]:80");
    let b = PeerAddress { ip: IpAddress::V6(0), port: 1 };
    assert_eq!(b.to_text(), "[::]:1");
    let c = PeerAddress { ip: IpAddress::V6(0x2001_0db8_0000_0000_0000_0000_0000_0001), port: 443 };
    assert_eq!(c.to_text(), "[2001:db8::1]:443");
    let d = PeerAddress { ip: IpAddress::V6(0x0000_0000_0000_0000_0000_ffff_c0a8_0001), port: 5 };
    assert_eq!(d.to_text(), "[::ffff:192.168.0.1]:5");
    let e = PeerAddress { ip: IpAddress::V6(0x0001_0002_0003_0004_0005_0006_0007_0008), port: 7 };
    assert_eq!(e.to_text(), "[1:2:3:4:5:6:7:8]:7");
    let f = PeerAddress { ip: IpAddress::V6(0x0001_0000_0000_0002_0000_0000_0000_0003), port: 7 };
    assert_eq!(f.to_text(), "[1:0:0:2::3]:7");
    let g = PeerAddress { ip: IpAddress::V6(0x0001_0000_0002_0003_0004_0005_0006_0007), port: 7 };
    assert_eq!(g.to_text(), "[1:0:2:3:4:5:6:7]:7");
}

#[test]
fn frame_round_trip() {
    let data = vec![1u8, 2, 3, 4, 5];
    let f = encode_frame(&data);
    assert_eq!(f, vec![0, 0, 0, 5, 1, 2, 3, 4, 5]);
    assert_eq!(frame_length(&f), 5);
    let mut buf = f.clone();
    buf.extend_from_slice(&[9, 9]);
    assert_eq!(decode_frame(&buf), Some((data, 9)));
}

#[test]
fn partial_frame_is_not_decoded() {
    assert_eq!(decode_frame(&[0, 0]), None);
    assert_eq!(decode_frame(&[0, 0, 0, 3, 1, 2]), None);
    assert_eq!(decode_frame(&[0, 0, 0, 0]), Some((vec![], 4)));
    assert_eq!(frame_length(&[1, 0, 0, 0]), 1 << 24);
}

#[test]
fn socket_state_checks() {
    let mut s = SocketState::new();
    assert_eq!(s.get_status(), None);
    assert!(!s.fully_initialized());
    assert_eq!(s.check_listening(), Err(SocketError::BindError("TCP listener not initialized".to_string())));
    assert_eq!(s.check_udp(), Err(SocketError::BindError("UDP socket not initialized".to_string())));
    s.tcp_bound = true;
    assert_eq!(s.get_status(), Some((true, false)));
    assert_eq!(s.check_tcp(), Ok(()));
    assert_eq!(s.check_listening(), Err(SocketError::BindError("UDP socket not initialized".to_string())));
    s.udp_bound = true;
    assert!(s.fully_initialized());
    assert_eq!(s.check_listening(), Ok(()));
    assert_eq!(s.check_udp(), Ok(()));
}

#[test]
fn peer_connection_start_and_send() {
    let mut c = PeerConnection::new(v4(1, 2, 3, 4, 5), true);
    assert_eq!(c.status, ConnectionStatus::Connecting);
    assert_eq!(c.send(), Err(ConnectionError::IoError(IoErrorKind::NotConnected, "Connection not started".to_string())));
    assert_eq!(c.start(), Ok(()));
    assert_eq!(c.status, ConnectionStatus::Connected);
    assert_eq!(c.send(), Ok(()));
    assert_eq!(c.start(), Err(ConnectionError::IoError(IoErrorKind::NotConnected, "No TCP stream available".to_string())));
    assert_eq!(c.status, ConnectionStatus::Connected);
}

#[test]
fn start_without_stream_is_not_connected() {
    let mut c = PeerConnection::new(v4(127, 0, 0, 1, 9000), false);
    assert_eq!(c.start(), Err(ConnectionError::IoError(IoErrorKind::NotConnected, "No TCP stream available".to_string())));
    assert_eq!(c.status, ConnectionStatus::Connecting);
    assert_eq!(c.send(), Err(ConnectionError::IoError(IoErrorKind::NotConnected, "Connection not started".to_string())));
}

#[test]
fn connection_manager_limits_and_reuses() {
    let mut m = ConnectionManager::new(2);
    let addr = v4(10, 0, 0, 2, 45678);
    assert_eq!(m.plan_connect(addr), ConnectPlan::Dial);
    let mut c = PeerConnection::new(addr, true);
    c.start().unwrap();
    let id = c.id;
    m.add_connection(c);
    assert_eq!(m.connection_count(), 1);
    assert_eq!(m.plan_connect(addr), ConnectPlan::Existing(id));
    assert_eq!(m.plan_connect(v4(10, 0, 0, 3, 45678)), ConnectPlan::Dial);
    assert!(m.accepts_incoming());
    let other = PeerConnection::new(v4(10, 0, 0, 3, 1), false);
    let other_id = other.id;
    m.add_connection(other);
    assert!(!m.accepts_incoming());
    assert_eq!(m.plan_connect(v4(10, 0, 0, 9, 1)), ConnectPlan::LimitReached);
    assert_eq!(m.send_to(id), Ok(()));
    assert_eq!(m.send_to(other_id), Err(ConnectionError::IoError(IoErrorKind::NotConnected, "Connection not started".to_string())));
    let list = m.list_connections();
    assert_eq!(list.len(), 2);
    assert!(list.contains(&(id, addr, ConnectionStatus::Connected)));
    assert_eq!(m.get_connection(id).map(|c| c.addr), Some(addr));
    let closed = m.disconnect(id).unwrap();
    assert_eq!((closed.id, closed.addr, closed.status), (id, addr, ConnectionStatus::Disconnecting));
    assert_eq!(m.disconnect(id), Err(ConnectionError::NotFound(id)));
    assert_eq!(m.send_to(id), Err(ConnectionError::NotFound(id)));
    assert_eq!(m.connection_count(), 1);
    assert!(m.get_connection(id).is_none());
}

#[test]
fn peer_table_add_update_and_list() {
    let mut t = PeerTable::new();
    let a = v4(192, 168, 0, 10, 45678);
    assert!(t.add_peer_at(5, a, 100));
    assert!(!t.add_peer_at(5, v4(1, 1, 1, 1, 1), 200));
    assert!(t.has_peer(&5));
    let p = t.get_peer(&5).unwrap();
    assert_eq!((p.id, p.addr, p.last_seen), (5, a, 100));
    t.update_peer_at(&5, 300);
    assert_eq!(t.get_peer(&5).unwrap().last_seen, 300);
    t.update_peer_at(&6, 300);
    assert!(!t.has_peer(&6));
    assert!(t.add_peer(6, a));
    let peers = t.get_peers();
    assert_eq!(peers.len(), 2);
}

#[test]
fn peer_expiry() {
    let mut t = PeerTable::new();
    let a = v4(192, 168, 0, 10, 45678);
    t.add_peer_at(1, a, 0);
    t.add_peer_at(2, a, 50);
    let lost = t.expire_peers(PEER_EXPIRATION + 1);
    assert_eq!(lost, vec![1]);
    assert!(!t.has_peer(&1));
    assert!(t.has_peer(&2));
    assert_eq!(PEER_EXPIRATION, 90_000_000_000);
    assert!(t.expire_peers(PEER_EXPIRATION).is_empty());
}

#[test]
fn resolved_and_removed_services() {
    let mut t = PeerTable::new();
    let id: u128 = 0x6ba7b810_9dad_11d1_80b4_00c04fd430c8;
    let name = format!("{}._leni-deni._udp.local.", instance_name(id));
    assert_eq!(instance_name(id), "6ba7b810-9dad-11d1-80b4-00c04fd430c8");
    let a = v4(10, 1, 1, 1, 45678);
    assert_eq!(t.service_resolved(&name, a, 7), Some(DiscoveryEvent::PeerDiscovered(id, a)));
    assert_eq!(t.service_resolved(&name, a, 8), None);
    assert_eq!(t.get_peer(&id).unwrap().last_seen, 7);
    assert_eq!(t.service_resolved("not-a-uuid._x.local.", a, 9), None);
    assert_eq!(t.service_removed(&name), Some(DiscoveryEvent::PeerLost(id)));
    assert_eq!(t.service_removed(&name), None);
    assert!(t.get_peers().is_empty());
}

#[test]
fn broadcast_addresses() {
    assert_eq!(subnet_broadcast(v4(192, 168, 1, 42, 45679)), Some(v4(192, 168, 1, 255, 45679)));
    assert_eq!(subnet_broadcast(v4(127, 0, 0, 1, 45679)), None);
    assert_eq!(subnet_broadcast(PeerAddress { ip: IpAddress::V6(1), port: 1 }), None);
    assert_eq!(global_broadcast(45679), v4(255, 255, 255, 255, 45679));
}

#[test]
fn uuid_text_is_hyphenated() {
    assert_eq!(instance_name(0), "00000000-0000-0000-0000-000000000000");
    assert_eq!(instance_name(u128::MAX), "ffffffff-ffff-ffff-ffff-ffffffffffff");
}

#[test]
fn stun_binding_request_and_answer() {
    assert_eq!(binding_request(), vec![0, 1, 0, 0]);
    let mut answer = vec![0u8; 20];
    answer[0] = 1;
    answer[1] = 1;
    answer[2] = 0x4c;
    answer[3] = 0xe1;
    answer[4..8].copy_from_slice(&[203, 0, 113, 5]);
    assert_eq!(parse_stun_response(&answer), Ok(v4(203, 0, 113, 5, 19681)));
    assert_eq!(parse_stun_response(&answer[..19]), Err(NatError::InvalidStunResponse));
    answer[1] = 0x02;
    assert_eq!(parse_stun_response(&answer), Err(NatError::InvalidStunResponse));
}

#[test]
fn nat_traversal_defaults_and_steps() {
    let mut n = NatTraversal::default();
    assert_eq!(
        n.stun_servers(),
        &vec![
            "stun.l.google.com:19302".to_string(),
            "stun1.l.google.com:19302".to_string(),
            "stun2.l.google.com:19302".to_string(),
        ]
    );
    assert!(n.hole_punching_enabled());
    assert_eq!(n.hole_punch_packet_count(), HOLE_PUNCH_PACKETS);
    assert_eq!(n.first_stun_step(), StunStep::Query(0));
    assert_eq!(n.next_stun_step(0, None), StunStep::Query(1));
    assert_eq!(n.next_stun_step(2, None), StunStep::GiveUp);
    let a = v4(1, 2, 3, 4, 5);
    assert_eq!(n.next_stun_step(1, Some(a)), StunStep::Found(a));
    n.enable_hole_punching(false);
    assert_eq!(n.hole_punch_packet_count(), 0);
    let empty = NatTraversal::new(vec![]);
    assert_eq!(empty.first_stun_step(), StunStep::GiveUp);
}
