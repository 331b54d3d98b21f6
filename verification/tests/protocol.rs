use leni_deni::network::address::{IpAddress, PeerAddress};
use leni_deni::network::protocol::{Message, MessageType, Protocol, ProtocolError, PROTOCOL_VERSION};

fn le(x: u64, n: usize) -> Vec<u8> {
    x.to_le_bytes()[..n].to_vec()
}

fn wire(version: u8, variant: u32, id: u128, sender: u128, payload: &[u8]) -> Vec<u8> {
    let mut b = vec![version];
    b.extend(le(variant as u64, 4));
    b.extend(le(16, 8));
    b.extend(id.to_be_bytes());
    b.extend(le(16, 8));
    b.extend(sender.to_be_bytes());
    b.extend(le(payload.len() as u64, 8));
    b.extend_from_slice(payload);
    b
}

#[test]
fn message_type_codes_round_trip() {
    let all = [
        (MessageType::Ping, 0u8),
        (MessageType::Pong, 1),
        (MessageType::Announce, 2),
        (MessageType::DiscoveryQuery, 3),
        (MessageType::PeerList, 4),
        (MessageType::FileMetadata, 5),
        (MessageType::FileRequest, 6),
        (MessageType::FileChunk, 7),
        (MessageType::Ack, 8),
        (MessageType::FileComplete, 9),
        (MessageType::Error, 255),
    ];
    for (t, c) in all {
        assert_eq!(t.code(), c);
        assert_eq!(MessageType::try_from(c), Ok(t));
    }
}

#[test]
fn unknown_message_type_code_is_refused() {
    assert_eq!(MessageType::try_from(10), Err(ProtocolError::UnknownMessageType(10)));
    assert_eq!(MessageType::try_from(254), Err(ProtocolError::UnknownMessageType(254)));
}

#[test]
fn variant_indices_are_declaration_order() {
    assert_eq!(MessageType::Ping.variant_index(), 0);
    assert_eq!(MessageType::FileComplete.variant_index(), 9);
    assert_eq!(MessageType::Error.variant_index(), 10);
    assert_eq!(MessageType::from_variant_index(8), Some(MessageType::Ack));
    assert_eq!(MessageType::from_variant_index(11), None);
}

#[test]
fn message_type_names() {
    assert_eq!(MessageType::Ping.to_display_string(), "Ping");
    assert_eq!(MessageType::DiscoveryQuery.to_display_string(), "DiscoveryQuery");
    assert_eq!(MessageType::FileComplete.to_display_string(), "FileComplete");
    assert_eq!(MessageType::Error.to_display_string(), "Error");
}

#[test]
fn encoding_has_bincode_layout() {
    let p = Protocol::new(7);
    let m = Message {
        version: PROTOCOL_VERSION,
        msg_type: MessageType::FileChunk,
        message_id: 0x0102,
        sender_id: 7,
        payload: vec![9, 8, 7],
    };
    let b = p.encode(&m).unwrap();
    assert_eq!(b, wire(1, 7, 0x0102, 7, &[9, 8, 7]));
}

#[test]
fn decode_reads_back_encoded_message() {
    let p = Protocol::new(42);
    let m = p.create_message(MessageType::Announce, vec![1, 2, 3, 4]);
    let b = p.encode(&m).unwrap();
    let d = p.decode(&b).unwrap();
    assert_eq!(d.version, PROTOCOL_VERSION);
    assert_eq!(d.msg_type, MessageType::Announce);
    assert_eq!(d.message_id, m.message_id);
    assert_eq!(d.sender_id, 42);
    assert_eq!(d.payload, vec![1, 2, 3, 4]);
}

#[test]
fn decode_refuses_other_version() {
    let p = Protocol::new(1);
    let b = wire(2, 0, 5, 6, &[]);
    assert_eq!(p.decode(&b).unwrap_err(), ProtocolError::VersionMismatch(1, 2));
}

#[test]
fn decode_refuses_garbage() {
    let p = Protocol::new(1);
    assert!(matches!(p.decode(&[1, 2, 3]), Err(ProtocolError::SerializationError(_))));
    let b = wire(1, 11, 5, 6, &[]);
    assert!(matches!(p.decode(&b), Err(ProtocolError::SerializationError(_))));
}

#[test]
fn pong_answers_ping_id() {
    let p = Protocol::new(3);
    let b = p.create_pong(99).unwrap();
    assert_eq!(b, wire(1, 1, 99, 3, &[]));
    let m = p.decode(&b).unwrap();
    assert_eq!((m.version, m.msg_type, m.message_id, m.sender_id), (1, MessageType::Pong, 99, 3));
    assert!(m.payload.is_empty());
}

#[test]
fn ping_and_query_have_empty_payload() {
    let p = Protocol::new(3);
    let (t, _, payload) = p.handle_message(&p.create_ping().unwrap()).unwrap();
    assert_eq!(t, MessageType::Ping);
    assert!(payload.is_empty());
    let (t, _, payload) = p.handle_message(&p.create_discovery_query().unwrap()).unwrap();
    assert_eq!(t, MessageType::DiscoveryQuery);
    assert!(payload.is_empty());
}

#[test]
fn announce_carries_address_text() {
    let p = Protocol::new(3);
    let addr = PeerAddress { ip: IpAddress::V4(192, 168, 1, 20), port: 45678 };
    let (t, _, payload) = p.handle_message(&p.create_announce(addr).unwrap()).unwrap();
    assert_eq!(t, MessageType::Announce);
    assert_eq!(payload, b"192.168.1.20:45678".to_vec());
}

#[test]
fn error_message_carries_text() {
    let p = Protocol::new(3);
    let (t, _, payload) = p.handle_message(&p.create_error("bad things").unwrap()).unwrap();
    assert_eq!(t, MessageType::Error);
    assert_eq!(payload, b"bad things".to_vec());
}

#[test]
fn peer_list_payload_is_encoded_texts() {
    let p = Protocol::new(3);
    let peers = [
        (0x0000_0000_0000_0000_0000_0000_0000_0001u128, PeerAddress { ip: IpAddress::V4(10, 0, 0, 1), port: 80 }),
        (0xffu128 << 120, PeerAddress { ip: IpAddress::V6(1), port: 9 }),
    ];
    let (t, _, payload) = p.handle_message(&p.create_peer_list(&peers).unwrap()).unwrap();
    assert_eq!(t, MessageType::PeerList);
    let a = "00000000-0000-0000-0000-000000000001:10.0.0.1:80";
    let b = "ff000000-0000-0000-0000-000000000000:[::1]:9";
    let mut expected = le(2, 8);
    expected.extend(le(a.len() as u64, 8));
    expected.extend_from_slice(a.as_bytes());
    expected.extend(le(b.len() as u64, 8));
    expected.extend_from_slice(b.as_bytes());
    assert_eq!(payload, expected);
}

#[test]
fn handle_message_reports_version_mismatch() {
    let p = Protocol::new(3);
    assert_eq!(p.handle_message(&wire(0, 0, 1, 2, &[])).unwrap_err(), ProtocolError::VersionMismatch(1, 0));
}

#[test]
fn created_message_comes_from_node() {
    let p = Protocol::new(1234);
    let m = p.create_message(MessageType::Ack, vec![5]);
    assert_eq!(m.version, PROTOCOL_VERSION);
    assert_eq!(m.msg_type, MessageType::Ack);
    assert_eq!(m.sender_id, 1234);
    assert_eq!(m.payload, vec![5]);
    let n = p.create_message(MessageType::Ack, vec![5]);
    assert_ne!(m.message_id, n.message_id);
}
