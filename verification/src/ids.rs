use vstd::prelude::*;

use crate::bytes::be_bytes;
use crate::transfer::checksum::hex_text;

verus! {

/// Identifier of a node, transfer, share or connection: the 128 bits of a
/// UUID, most significant byte first as in its canonical text.
pub type Id = u128;

/// Calls `uuid::Uuid::new_v4` and returns the UUID's 128 bits. The value
/// is random: nothing is claimed of it.
#[verifier::external_body]
pub(crate) fn new_uuid() -> (id: Id) {
    uuid::Uuid::new_v4().as_u128()
}

/// The canonical hyphenated lower-case text of a UUID (8-4-4-4-12 hex
/// digits of its bytes, most significant first).
pub open spec fn uuid_text_spec(id: Id) -> Seq<char> {
    let h = hex_text(be_bytes(id as nat, 16));
    h.subrange(0, 8) + seq!['-'] + h.subrange(8, 12) + seq!['-'] + h.subrange(12, 16)
        + seq!['-'] + h.subrange(16, 20) + seq!['-'] + h.subrange(20, 32)
}

/// What `uuid::Uuid::parse_str` accepts and gives back, as 128 bits.
pub uninterp spec fn uuid_parse(text: Seq<char>) -> Option<Id>;

/// Calls `uuid::Uuid::to_string` (its `Display`), which writes the
/// hyphenated lower-case form; parsing that text gives the UUID back.
#[verifier::external_body]
pub(crate) fn uuid_text(id: Id) -> (s: String)
    ensures
        s@ == uuid_text_spec(id),
        uuid_parse(s@) == Some(id),
{
    uuid::Uuid::from_u128(id).to_string()
}

/// Calls `uuid::Uuid::parse_str`: `Some` of the UUID's bits where the text
/// is a UUID in one of the forms the crate accepts, else `None`.
#[verifier::external_body]
pub(crate) fn parse_uuid(text: &str) -> (r: Option<Id>)
    ensures
        r == uuid_parse(text@),
{
    uuid::Uuid::parse_str(text).ok().map(|u| u.as_u128())
}

} // verus!
