use vstd::prelude::*;

use crate::ids::{new_uuid, uuid_text, uuid_text_spec, Id};
use crate::network::address::{address_text, PeerAddress};
use crate::network::wire::{
    bincode_decode_message, bincode_encode_message, bincode_encode_strings, bincode_message_fields,
    message_wire_bytes, string_list_wire_bytes,
};

verus! {

/// Version of the wire protocol this node speaks.
pub const PROTOCOL_VERSION: u8 = 1;

/// Errors of encoding and decoding messages.
#[derive(Debug, Clone, PartialEq, Eq)]
pub enum ProtocolError {
    /// The serializer failed; its message.
    SerializationError(String),
    /// The message is malformed.
    InvalidFormat,
    /// Expected version, then the version received.
    VersionMismatch(u8, u8),
    /// A message type code that names no message type.
    UnknownMessageType(u8),
}

/// Message types of the protocol.
#[derive(Debug, Clone, Copy, PartialEq, Eq, Structural)]
pub enum MessageType {
    /// Ping request to check if peer is alive
    Ping,
    /// Pong response to a ping
    Pong,
    /// Discovery announcement
    Announce,
    /// Discovery query
    DiscoveryQuery,
    /// Peer list exchange
    PeerList,
    /// File metadata
    FileMetadata,
    /// Request for file content
    FileRequest,
    /// File content chunk
    FileChunk,
    /// File transfer acknowledgment
    Ack,
    /// File transfer completion
    FileComplete,
    /// Error message
    Error,
}

/// The one-byte code of each message type.
pub open spec fn type_code(t: MessageType) -> u8 {
    match t {
        MessageType::Ping => 0,
        MessageType::Pong => 1,
        MessageType::Announce => 2,
        MessageType::DiscoveryQuery => 3,
        MessageType::PeerList => 4,
        MessageType::FileMetadata => 5,
        MessageType::FileRequest => 6,
        MessageType::FileChunk => 7,
        MessageType::Ack => 8,
        MessageType::FileComplete => 9,
        MessageType::Error => 255,
    }
}

/// The message type with a given code, if any.
pub open spec fn type_of_code(code: u8) -> Option<MessageType> {
    if code == 0 {
        Some(MessageType::Ping)
    } else if code == 1 {
        Some(MessageType::Pong)
    } else if code == 2 {
        Some(MessageType::Announce)
    } else if code == 3 {
        Some(MessageType::DiscoveryQuery)
    } else if code == 4 {
        Some(MessageType::PeerList)
    } else if code == 5 {
        Some(MessageType::FileMetadata)
    } else if code == 6 {
        Some(MessageType::FileRequest)
    } else if code == 7 {
        Some(MessageType::FileChunk)
    } else if code == 8 {
        Some(MessageType::Ack)
    } else if code == 9 {
        Some(MessageType::FileComplete)
    } else if code == 255 {
        Some(MessageType::Error)
    } else {
        None
    }
}

/// Position of a message type in its declaration, which is how the wire
/// encoding writes it (the `Error` type is the eleventh, so its index is 10).
pub open spec fn type_index(t: MessageType) -> u32 {
    match t {
        MessageType::Ping => 0,
        MessageType::Pong => 1,
        MessageType::Announce => 2,
        MessageType::DiscoveryQuery => 3,
        MessageType::PeerList => 4,
        MessageType::FileMetadata => 5,
        MessageType::FileRequest => 6,
        MessageType::FileChunk => 7,
        MessageType::Ack => 8,
        MessageType::FileComplete => 9,
        MessageType::Error => 10,
    }
}

/// The message type at a declaration position, if any.
pub open spec fn type_at_index(i: u32) -> Option<MessageType> {
    if i <= 9 {
        type_of_code(i as u8)
    } else if i == 10 {
        Some(MessageType::Error)
    } else {
        None
    }
}

/// The name of each message type.
pub open spec fn message_type_name(t: MessageType) -> Seq<char> {
    match t {
        MessageType::Ping => "Ping"@,
        MessageType::Pong => "Pong"@,
        MessageType::Announce => "Announce"@,
        MessageType::DiscoveryQuery => "DiscoveryQuery"@,
        MessageType::PeerList => "PeerList"@,
        MessageType::FileMetadata => "FileMetadata"@,
        MessageType::FileRequest => "FileRequest"@,
        MessageType::FileChunk => "FileChunk"@,
        MessageType::Ack => "Ack"@,
        MessageType::FileComplete => "FileComplete"@,
        MessageType::Error => "Error"@,
    }
}

impl MessageType {
    /// The one-byte code of this message type.
    pub fn code(self) -> (c: u8)
        ensures
            c == type_code(self),
    {
        match self {
            MessageType::Ping => 0,
            MessageType::Pong => 1,
            MessageType::Announce => 2,
            MessageType::DiscoveryQuery => 3,
            MessageType::PeerList => 4,
            MessageType::FileMetadata => 5,
            MessageType::FileRequest => 6,
            MessageType::FileChunk => 7,
            MessageType::Ack => 8,
            MessageType::FileComplete => 9,
            MessageType::Error => 255,
        }
    }

    /// The message type with the given code; an unknown code is an error
    /// that carries it.
    pub fn try_from(value: u8) -> (r: Result<MessageType, ProtocolError>)
        ensures
            match type_of_code(value) {
                Some(t) => r == Ok::<MessageType, ProtocolError>(t),
                None => r == Err::<MessageType, ProtocolError>(ProtocolError::UnknownMessageType(value)),
            },
    {
        match value {
            0 => Ok(MessageType::Ping),
            1 => Ok(MessageType::Pong),
            2 => Ok(MessageType::Announce),
            3 => Ok(MessageType::DiscoveryQuery),
            4 => Ok(MessageType::PeerList),
            5 => Ok(MessageType::FileMetadata),
            6 => Ok(MessageType::FileRequest),
            7 => Ok(MessageType::FileChunk),
            8 => Ok(MessageType::Ack),
            9 => Ok(MessageType::FileComplete),
            255 => Ok(MessageType::Error),
            _ => Err(ProtocolError::UnknownMessageType(value)),
        }
    }

    /// Declaration position of this message type.
    pub fn variant_index(self) -> (i: u32)
        ensures
            i == type_index(self),
            self != MessageType::Error ==> i == type_code(self) as u32,
            self == MessageType::Error ==> i == 10,
    {
        match self {
            MessageType::Ping => 0,
            MessageType::Pong => 1,
            MessageType::Announce => 2,
            MessageType::DiscoveryQuery => 3,
            MessageType::PeerList => 4,
            MessageType::FileMetadata => 5,
            MessageType::FileRequest => 6,
            MessageType::FileChunk => 7,
            MessageType::Ack => 8,
            MessageType::FileComplete => 9,
            MessageType::Error => 10,
        }
    }

    /// The message type at a declaration position.
    pub fn from_variant_index(i: u32) -> (r: Option<MessageType>)
        ensures
            r == type_at_index(i),
            i <= 9 ==> r == type_of_code(i as u8),
            i == 10 ==> r == Some(MessageType::Error),
            i > 10 ==> r is None,
    {
        if i <= 9 {
            match MessageType::try_from(i as u8) {
                Ok(t) => Some(t),
                Err(_) => None,
            }
        } else if i == 10 {
            Some(MessageType::Error)
        } else {
            None
        }
    }

    /// The name of this message type, as it is displayed.
    pub fn to_display_string(self) -> (s: String)
        ensures
            s@ == message_type_name(self),
    {
        let name = match self {
            MessageType::Ping => "Ping",
            MessageType::Pong => "Pong",
            MessageType::Announce => "Announce",
            MessageType::DiscoveryQuery => "DiscoveryQuery",
            MessageType::PeerList => "PeerList",
            MessageType::FileMetadata => "FileMetadata",
            MessageType::FileRequest => "FileRequest",
            MessageType::FileChunk => "FileChunk",
            MessageType::Ack => "Ack",
            MessageType::FileComplete => "FileComplete",
            MessageType::Error => "Error",
        };
        name.to_owned()
    }
}

/// Every message type's code names it again.
pub proof fn lemma_code_round_trip(t: MessageType)
    ensures
        type_of_code(type_code(t)) == Some(t),
{
}

/// Every code that names a message type is that type's code.
pub proof fn lemma_code_names_type(code: u8)
    ensures
        type_of_code(code) matches Some(t) ==> type_code(t) == code,
{
}

/// Every message type's declaration position names it again.
pub proof fn lemma_index_round_trip(t: MessageType)
    ensures
        type_at_index(type_index(t)) == Some(t),
{
}

/// A message between peers.
#[derive(Debug, Clone)]
pub struct Message {
    /// Protocol version
    pub version: u8,
    /// Message type
    pub msg_type: MessageType,
    /// Message ID for correlating requests and responses
    pub message_id: Id,
    /// Sender ID
    pub sender_id: Id,
    /// Payload data
    pub payload: Vec<u8>,
}

/// The wire bytes of a message.
pub open spec fn wire_bytes(m: Message) -> Seq<u8> {
    message_wire_bytes(m.version, type_index(m.msg_type), m.message_id, m.sender_id, m.payload@)
}

/// The message that a decoder gives back for `data`: the fields the
/// encoding holds, a known message type, and the current version.
pub open spec fn decoded(data: Seq<u8>) -> Result<(u8, MessageType, Id, Id, Seq<u8>), ProtocolError> {
    match bincode_message_fields(data) {
        None => Err(ProtocolError::SerializationError(arbitrary())),
        Some((v, k, m, s, p)) => match type_at_index(k) {
            None => Err(ProtocolError::SerializationError(arbitrary())),
            Some(t) => if v != PROTOCOL_VERSION {
                Err(ProtocolError::VersionMismatch(PROTOCOL_VERSION, v))
            } else {
                Ok((v, t, m, s, p))
            },
        },
    }
}

/// Fields of a message, with its payload as a sequence.
pub open spec fn fields(m: Message) -> (u8, MessageType, Id, Id, Seq<u8>) {
    (m.version, m.msg_type, m.message_id, m.sender_id, m.payload@)
}

/// The decoded message agrees with `decoded`: same fields on success, the
/// same error kind on failure.
pub open spec fn decode_agrees(r: Result<Message, ProtocolError>, d: Result<(u8, MessageType, Id, Id, Seq<u8>), ProtocolError>) -> bool {
    match (r, d) {
        (Ok(m), Ok(f)) => fields(m) == f,
        (Err(ProtocolError::SerializationError(_)), Err(ProtocolError::SerializationError(_))) => true,
        (Err(e1), Err(e2)) => e1 == e2 && !(e1 is SerializationError),
        _ => false,
    }
}

/// The texts of a peer list: `<connection id>:<address>` for each peer.
pub open spec fn peer_list_texts(peers: Seq<(Id, PeerAddress)>) -> Seq<Seq<char>>
    decreases peers.len(),
{
    if peers.len() == 0 {
        Seq::empty()
    } else {
        peer_list_texts(peers.drop_last()).push(
            uuid_text_spec(peers.last().0) + seq![':'] + address_text(peers.last().1),
        )
    }
}

/// Encodes and decodes messages for one node.
#[derive(Debug, Clone)]
pub struct Protocol {
    /// Unique identifier for this node
    pub node_id: Id,
}

impl Protocol {
    /// A protocol handler for the given node.
    pub fn new(node_id: Id) -> (p: Self)
        ensures
            p.node_id == node_id,
    {
        Protocol { node_id }
    }

    /// A new message of the current version from this node, with a fresh
    /// random message id.
    pub fn create_message(&self, msg_type: MessageType, payload: Vec<u8>) -> (m: Message)
        ensures
            m.version == PROTOCOL_VERSION,
            m.msg_type == msg_type,
            m.sender_id == self.node_id,
            m.payload@ == payload@,
    {
        Message {
            version: PROTOCOL_VERSION,
            msg_type,
            message_id: new_uuid(),
            sender_id: self.node_id,
            payload,
        }
    }

    /// The wire bytes of a message; the serializer reads the same fields
    /// back from them.
    pub fn encode(&self, message: &Message) -> (r: Result<Vec<u8>, ProtocolError>)
        ensures
            r matches Ok(b) && b@ == wire_bytes(*message)
                && bincode_message_fields(b@) == Some((message.version, type_index(message.msg_type), message.message_id, message.sender_id, message.payload@)),
    {
        match bincode_encode_message(
            message.version,
            message.msg_type.variant_index(),
            message.message_id,
            message.sender_id,
            message.payload.as_slice(),
        ) {
            Ok(b) => Ok(b),
            Err(text) => Err(ProtocolError::SerializationError(text)),
        }
    }

    /// The message in `data`: a deserializer failure or an unknown message
    /// type is a serialization error, a version other than the current one
    /// is a version mismatch.
    pub fn decode(&self, data: &[u8]) -> (r: Result<Message, ProtocolError>)
        ensures
            decode_agrees(r, decoded(data@)),
    {
        match bincode_decode_message(data) {
            Err(text) => Err(ProtocolError::SerializationError(text)),
            Ok((version, index, message_id, sender_id, payload)) => {
                match MessageType::from_variant_index(index) {
                    None => Err(
                        ProtocolError::SerializationError("unknown message type index".to_owned()),
                    ),
                    Some(msg_type) => {
                        if version != PROTOCOL_VERSION {
                            Err(ProtocolError::VersionMismatch(PROTOCOL_VERSION, version))
                        } else {
                            Ok(Message { version, msg_type, message_id, sender_id, payload })
                        }
                    },
                }
            },
        }
    }

    /// An encoded ping with an empty payload.
    pub fn create_ping(&self) -> (r: Result<Vec<u8>, ProtocolError>)
        ensures
            r matches Ok(b) && exists|id: Id|
                b@ == message_wire_bytes(PROTOCOL_VERSION, 0, id, self.node_id, Seq::empty())
                    && decoded(b@) == Ok::<(u8, MessageType, Id, Id, Seq<u8>), ProtocolError>((PROTOCOL_VERSION, MessageType::Ping, id, self.node_id, Seq::empty())),
    {
        let message = self.create_message(MessageType::Ping, Vec::new());
        self.encode(&message)
    }

    /// An encoded pong that answers the ping with id `ping_id`.
    pub fn create_pong(&self, ping_id: Id) -> (r: Result<Vec<u8>, ProtocolError>)
        ensures
            r matches Ok(b) && b@ == message_wire_bytes(PROTOCOL_VERSION, 1, ping_id, self.node_id, Seq::empty())
                && decoded(b@) == Ok::<(u8, MessageType, Id, Id, Seq<u8>), ProtocolError>((PROTOCOL_VERSION, MessageType::Pong, ping_id, self.node_id, Seq::empty())),
    {
        let mut message = self.create_message(MessageType::Pong, Vec::new());
        message.message_id = ping_id;
        self.encode(&message)
    }

    /// An encoded announcement whose payload is the UTF-8 text of `addr`.
    pub fn create_announce(&self, addr: PeerAddress) -> (r: Result<Vec<u8>, ProtocolError>)
        ensures
            r matches Ok(b) && exists|id: Id|
                b@ == message_wire_bytes(PROTOCOL_VERSION, 2, id, self.node_id, vstd::utf8::encode_utf8(address_text(addr)))
                    && decoded(b@) == Ok::<(u8, MessageType, Id, Id, Seq<u8>), ProtocolError>((PROTOCOL_VERSION, MessageType::Announce, id, self.node_id, vstd::utf8::encode_utf8(address_text(addr)))),
    {
        let text = addr.to_text();
        let payload = text.as_str().as_bytes_vec();
        let message = self.create_message(MessageType::Announce, payload);
        self.encode(&message)
    }

    /// An encoded peer list: its payload is the encoded list of texts
    /// `<connection id>:<address>`, one per peer, in the order given.
    pub fn create_peer_list(&self, peers: &[(Id, PeerAddress)]) -> (r: Result<Vec<u8>, ProtocolError>)
        ensures
            r matches Ok(b) && exists|id: Id|
                b@ == message_wire_bytes(PROTOCOL_VERSION, 4, id, self.node_id, string_list_wire_bytes(peer_list_texts(peers@)))
                    && decoded(b@) == Ok::<(u8, MessageType, Id, Id, Seq<u8>), ProtocolError>((PROTOCOL_VERSION, MessageType::PeerList, id, self.node_id, string_list_wire_bytes(peer_list_texts(peers@)))),
    {
        let mut items: Vec<String> = Vec::new();
        let mut i: usize = 0;
        while i < peers.len()
            invariant
                i <= peers@.len(),
                items@.map_values(|s: String| s@) == peer_list_texts(peers@.take(i as int)),
            decreases peers@.len() - i,
        {
            let (id, addr) = peers[i];
            let mut item = uuid_text(id);
            item.append(":");
            let addr_text = addr.to_text();
            item.append(addr_text.as_str());
            proof {
                reveal_strlit(":");
                assert(":"@ == seq![':']);
                assert(peers@.take(i + 1).drop_last() == peers@.take(i as int));
                assert(peers@.take(i + 1).last() == (id, addr));
                assert(item@ == uuid_text_spec(id) + seq![':'] + address_text(addr));
            }
            let ghost before = items@;
            items.push(item);
            assert(items@.map_values(|s: String| s@) =~= before.map_values(|s: String| s@).push(item@));
            assert(items@.map_values(|s: String| s@) =~= peer_list_texts(peers@.take(i + 1)));
            i = i + 1;
        }
        assert(peers@.take(i as int) == peers@);
        let payload = match bincode_encode_strings(&items) {
            Ok(p) => p,
            Err(text) => return Err(ProtocolError::SerializationError(text)),
        };
        let message = self.create_message(MessageType::PeerList, payload);
        self.encode(&message)
    }

    /// An encoded discovery query with an empty payload.
    pub fn create_discovery_query(&self) -> (r: Result<Vec<u8>, ProtocolError>)
        ensures
            r matches Ok(b) && exists|id: Id|
                b@ == message_wire_bytes(PROTOCOL_VERSION, 3, id, self.node_id, Seq::empty())
                    && decoded(b@) == Ok::<(u8, MessageType, Id, Id, Seq<u8>), ProtocolError>((PROTOCOL_VERSION, MessageType::DiscoveryQuery, id, self.node_id, Seq::empty())),
    {
        let message = self.create_message(MessageType::DiscoveryQuery, Vec::new());
        self.encode(&message)
    }

    /// An encoded error message whose payload is the UTF-8 text given.
    pub fn create_error(&self, error_message: &str) -> (r: Result<Vec<u8>, ProtocolError>)
        ensures
            r matches Ok(b) && exists|id: Id|
                b@ == message_wire_bytes(PROTOCOL_VERSION, 10, id, self.node_id, vstd::utf8::encode_utf8(error_message@))
                    && decoded(b@) == Ok::<(u8, MessageType, Id, Id, Seq<u8>), ProtocolError>((PROTOCOL_VERSION, MessageType::Error, id, self.node_id, vstd::utf8::encode_utf8(error_message@))),
    {
        let payload = error_message.as_bytes_vec();
        let message = self.create_message(MessageType::Error, payload);
        self.encode(&message)
    }

    /// Decodes a message and gives back its type, id and payload.
    pub fn handle_message(&self, data: &[u8]) -> (r: Result<(MessageType, Id, Vec<u8>), ProtocolError>)
        ensures
            match (r, decoded(data@)) {
                (Ok((t, id, p)), Ok((_, t2, id2, _, p2))) => t == t2 && id == id2 && p@ == p2,
                (Err(ProtocolError::SerializationError(_)), Err(ProtocolError::SerializationError(_))) => true,
                (Err(e1), Err(e2)) => e1 == e2 && !(e1 is SerializationError),
                _ => false,
            },
    {
        let message = self.decode(data)?;
        Ok((message.msg_type, message.message_id, message.payload))
    }
}

/// The wire index of a message type is its position in the declaration:
/// the types declared before `Error` are numbered as their one-byte codes
/// (0 to 9), and `Error`, declared last, is 10. Reading an index back gives
/// the type at that position, and the positions past 10 name no type.
pub proof fn law_wire_index_is_declaration_position(t: MessageType, i: u32)
    ensures
        t != MessageType::Error ==> type_index(t) == type_code(t) as u32,
        t == MessageType::Error ==> type_index(t) == 10,
        i <= 9 ==> type_at_index(i) == type_of_code(i as u8),
        type_at_index(type_index(t)) == Some(t),
        type_at_index(i) matches Some(u) ==> type_index(u) == i,
        i > 10 ==> type_at_index(i) is None,
{
}

/// What a message decodes to after it was encoded: itself, where its version
/// is the current one.
pub proof fn lemma_decode_of_encode(m: Message, b: Seq<u8>)
    requires
        bincode_message_fields(b) == Some((m.version, type_index(m.msg_type), m.message_id, m.sender_id, m.payload@)),
        m.version == PROTOCOL_VERSION,
    ensures
        decoded(b) == Ok::<(u8, MessageType, Id, Id, Seq<u8>), ProtocolError>(fields(m)),
{
}

/// A message of another version is refused as a version mismatch that
/// names the version it carries.
pub proof fn lemma_decode_of_encode_other_version(m: Message, b: Seq<u8>)
    requires
        bincode_message_fields(b) == Some((m.version, type_index(m.msg_type), m.message_id, m.sender_id, m.payload@)),
        m.version != PROTOCOL_VERSION,
    ensures
        decoded(b) == Err::<(u8, MessageType, Id, Id, Seq<u8>), ProtocolError>(ProtocolError::VersionMismatch(PROTOCOL_VERSION, m.version)),
{
}

} // verus!
