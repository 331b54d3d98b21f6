use vstd::prelude::*;

use crate::bytes::{be_bytes, le_bytes};

verus! {

/// The bytes of a protocol message as bincode's default encoding lays them
/// out: the version byte, the message type's variant index as a
/// little-endian `u32`, each UUID as a little-endian `u64` length (16)
/// followed by its bytes, and the payload as a little-endian `u64` length
/// followed by its bytes.
pub open spec fn message_wire_bytes(
    version: u8,
    variant: u32,
    message_id: u128,
    sender_id: u128,
    payload: Seq<u8>,
) -> Seq<u8> {
    seq![version] + le_bytes(variant as nat, 4) + le_bytes(16, 8) + be_bytes(message_id as nat, 16)
        + le_bytes(16, 8) + be_bytes(sender_id as nat, 16) + le_bytes(payload.len(), 8) + payload
}

/// What `bincode::deserialize` reads from `data` as a message's fields
/// (version, variant index, message id, sender id, payload), or `None`
/// where it fails.
pub uninterp spec fn bincode_message_fields(data: Seq<u8>) -> Option<(u8, u32, u128, u128, Seq<u8>)>;

/// Calls `bincode::serialize` on the message's fields (the ids as
/// `uuid::Uuid`). It does not fail on these fields: bincode's default
/// options set no size limit and every length is known up front. The bytes
/// are laid out as [`message_wire_bytes`] says, and `bincode::deserialize`
/// reads the same fields back from them. An error would be handed on as its
/// text.
#[verifier::external_body]
pub(crate) fn bincode_encode_message(
    version: u8,
    variant: u32,
    message_id: u128,
    sender_id: u128,
    payload: &[u8],
) -> (r: Result<Vec<u8>, String>)
    ensures
        r is Ok,
        r matches Ok(b) ==> b@ == message_wire_bytes(version, variant, message_id, sender_id, payload@)
            && bincode_message_fields(b@) == Some((version, variant, message_id, sender_id, payload@)),
{
    bincode::serialize(
        &(version, variant, uuid::Uuid::from_u128(message_id), uuid::Uuid::from_u128(sender_id), payload),
    ).map_err(|e| e.to_string())
}

/// Calls `bincode::deserialize` for a message's fields (the ids as
/// `uuid::Uuid`, then taken as 128 bits). Its error is handed on as its text.
#[verifier::external_body]
pub(crate) fn bincode_decode_message(data: &[u8]) -> (r: Result<(u8, u32, u128, u128, Vec<u8>), String>)
    ensures
        match r {
            Ok((v, k, m, s, p)) => bincode_message_fields(data@) == Some((v, k, m, s, p@)),
            Err(_) => bincode_message_fields(data@) is None,
        },
{
    bincode::deserialize::<(u8, u32, uuid::Uuid, uuid::Uuid, Vec<u8>)>(data)
        .map(|(v, k, m, s, p)| (v, k, m.as_u128(), s.as_u128(), p))
        .map_err(|e| e.to_string())
}

/// The bytes of a list of strings as bincode's default encoding lays
/// them out: the count as a little-endian `u64`, then each string as a
/// little-endian `u64` byte length followed by its UTF-8 bytes.
pub open spec fn string_list_wire_bytes(items: Seq<Seq<char>>) -> Seq<u8> {
    le_bytes(items.len(), 8) + string_items_wire_bytes(items)
}

/// The encoded strings of a list, one after another.
pub open spec fn string_items_wire_bytes(items: Seq<Seq<char>>) -> Seq<u8>
    decreases items.len(),
{
    if items.len() == 0 {
        Seq::empty()
    } else {
        string_items_wire_bytes(items.drop_last()) + le_bytes(
            vstd::utf8::encode_utf8(items.last()).len(),
            8,
        ) + vstd::utf8::encode_utf8(items.last())
    }
}

/// Calls `bincode::serialize` on a list of strings. It does not fail on
/// such a list (no size limit, lengths known up front); the bytes are laid
/// out as [`string_list_wire_bytes`] says. An error would be handed on as
/// its text.
#[verifier::external_body]
pub(crate) fn bincode_encode_strings(items: &Vec<String>) -> (r: Result<Vec<u8>, String>)
    ensures
        r is Ok,
        r matches Ok(b) ==> b@ == string_list_wire_bytes(items@.map_values(|s: String| s@)),
{
    bincode::serialize(items).map_err(|e| e.to_string())
}

} // verus!
