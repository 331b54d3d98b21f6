use vstd::prelude::*;

use crate::ids::Id;
use crate::network::address::number_text;
use crate::network::protocol::{Message, MessageType};
use crate::text::str_equals;
use crate::transfer::checksum::checksum_text;
use crate::transfer::progress::{spec_complete, spec_start, spec_update, ProgressTracker, TransferProgress};

verus! {

/// Bytes read from a file per chunk unless configured otherwise.
pub const DEFAULT_CHUNK_SIZE: usize = 1048576;

/// Version written into the messages of a file transfer.
pub const TRANSFER_MESSAGE_VERSION: u8 = 1;

/// Where a transfer stands: the file, its size, the bytes moved so far
/// and the file's checksum.
#[derive(Debug, Clone)]
pub struct TransferState {
    pub file_name: String,
    pub file_size: u64,
    pub transferred_bytes: u64,
    pub checksum: String,
}

/// Errors of a file transfer.
#[derive(Debug, Clone)]
pub enum TransferError {
    /// The peer sent a message that does not fit the transfer; what was
    /// wrong.
    InvalidMessage(String),
    /// A payload could not be written or read as JSON; the serializer's
    /// message.
    Serialization(String),
    /// Reading or writing the file or the stream failed; its message.
    Io(String),
}

/// The decimal digits of a number as ASCII bytes.
pub open spec fn decimal_bytes(n: nat) -> Seq<u8> {
    number_text(n, 10).map_values(|c: char| c as u8)
}

/// What `serde_json::to_vec` writes for a file's name, size and checksum
/// as a tuple.
pub uninterp spec fn json_metadata_bytes(name: Seq<char>, size: u64, checksum: Seq<char>) -> Seq<u8>;

/// What `serde_json::from_slice` reads from bytes as a tuple of a string,
/// a `u64` and a string, or `None` where it fails.
pub uninterp spec fn json_metadata_value(data: Seq<u8>) -> Option<(Seq<char>, u64, Seq<char>)>;

/// What `serde_json::from_slice` reads from bytes as a `u64`, or `None`
/// where it fails.
pub uninterp spec fn json_u64_value(data: Seq<u8>) -> Option<u64>;

/// Calls `serde_json::to_vec` on `(name, size, checksum)`, which does not
/// fail on strings and a number written to a vector; `serde_json::from_slice`
/// reads the same tuple back from the bytes. An error would be handed on as
/// its text.
#[verifier::external_body]
fn json_encode_metadata(name: &String, size: u64, checksum: &String) -> (r: Result<Vec<u8>, String>)
    ensures
        r is Ok,
        r matches Ok(b) ==> b@ == json_metadata_bytes(name@, size, checksum@)
            && json_metadata_value(b@) == Some((name@, size, checksum@)),
{
    serde_json::to_vec(&(name, size, checksum)).map_err(|e| e.to_string())
}

/// Calls `serde_json::from_slice` for a `(String, u64, String)` tuple. Its
/// error is handed on as its text.
#[verifier::external_body]
fn json_decode_metadata(data: &[u8]) -> (r: Result<(String, u64, String), String>)
    ensures
        match r {
            Ok((a, b, c)) => json_metadata_value(data@) == Some((a@, b, c@)),
            Err(_) => json_metadata_value(data@) is None,
        },
{
    serde_json::from_slice::<(String, u64, String)>(data).map_err(|e| e.to_string())
}

/// Calls `serde_json::to_vec` on a `u64`, which does not fail and writes
/// its decimal digits (through `itoa`); `serde_json::from_slice` reads the
/// number back from them. An error would be handed on as its text.
#[verifier::external_body]
fn json_encode_u64(n: u64) -> (r: Result<Vec<u8>, String>)
    ensures
        r is Ok,
        r matches Ok(b) ==> b@ == decimal_bytes(n as nat) && json_u64_value(b@) == Some(n),
{
    serde_json::to_vec(&n).map_err(|e| e.to_string())
}

/// Calls `serde_json::from_slice` for a `u64`. Its error is handed on as
/// its text.
#[verifier::external_body]
fn json_decode_u64(data: &[u8]) -> (r: Result<u64, String>)
    ensures
        match r {
            Ok(n) => json_u64_value(data@) == Some(n),
            Err(_) => json_u64_value(data@) is None,
        },
{
    serde_json::from_slice::<u64>(data).map_err(|e| e.to_string())
}

/// Whether a message is one of a file transfer: the transfer version, no
/// message id and no sender, of the given type and payload.
pub open spec fn is_transfer_message(m: Message, t: MessageType, payload: Seq<u8>) -> bool {
    m.version == TRANSFER_MESSAGE_VERSION && m.msg_type == t && m.message_id == 0 && m.sender_id == 0
        && m.payload@ == payload
}

/// A message of a file transfer.
pub fn transfer_message(t: MessageType, payload: Vec<u8>) -> (m: Message)
    ensures
        is_transfer_message(m, t, payload@),
{
    Message { version: TRANSFER_MESSAGE_VERSION, msg_type: t, message_id: 0, sender_id: 0, payload }
}

/// Whether an error is an invalid-message error with the given text.
pub open spec fn is_invalid(e: TransferError, text: Seq<char>) -> bool {
    e matches TransferError::InvalidMessage(s) && s@ == text
}

/// The offset a sender starts from after the receiver's reply to the
/// metadata: 0 after an acknowledgment; the requested offset after a
/// resumption request whose offset lies inside the file; `None` where the
/// transfer fails.
pub open spec fn sender_start(reply: Message, file_size: u64) -> Option<u64> {
    match reply.msg_type {
        MessageType::Ack => Some(0),
        MessageType::FileRequest => match json_u64_value(reply.payload@) {
            Some(offset) => if offset < file_size {
                Some(offset)
            } else {
                None
            },
            None => None,
        },
        _ => None,
    }
}

/// The name, size and checksum a receiver reads from a metadata message,
/// or `None` where the message is no metadata or its payload does not
/// read as JSON of that shape.
pub open spec fn received_metadata(m: Message) -> Option<(Seq<char>, u64, Seq<char>)> {
    if m.msg_type == MessageType::FileMetadata {
        json_metadata_value(m.payload@)
    } else {
        None
    }
}

/// How a receiver goes on with a file it is offered.
#[derive(Debug, Clone, Copy, PartialEq, Eq, Structural)]
pub enum ReceivePlan {
    /// Write the file from the start.
    Fresh,
    /// Keep the bytes already on disk and ask for the rest from this
    /// offset.
    Resume(u64),
    /// The file on disk is already as long as the offered one: nothing to
    /// receive.
    AlreadyComplete,
}

/// Whether the file on disk is known to be the start of the offered file:
/// its checksum is the offered one, or the receiver kept a record of an
/// interrupted transfer into it of a file of the offered size and checksum,
/// that stopped exactly at the length now on disk.
pub open spec fn prefix_known(
    existing_size: Option<u64>,
    file_size: u64,
    existing_checksum: Seq<char>,
    expected_checksum: Seq<char>,
    record: Option<TransferState>,
) -> bool {
    ||| existing_checksum == expected_checksum
    ||| (record matches Some(s) && s.file_size == file_size && s.checksum@ == expected_checksum
        && existing_size == Some(s.transferred_bytes))
}

/// The receiver's plan: with no file on disk, a fresh transfer; with a
/// file at least as long as the offered one, nothing; with a shorter file
/// known to be the offered file's start, a resumption from its length;
/// with a shorter file not known to be, a fresh transfer.
pub open spec fn receive_plan_spec(existing_size: Option<u64>, file_size: u64, known: bool) -> ReceivePlan {
    match existing_size {
        None => ReceivePlan::Fresh,
        Some(n) => if n >= file_size {
            ReceivePlan::AlreadyComplete
        } else if known {
            ReceivePlan::Resume(n)
        } else {
            ReceivePlan::Fresh
        },
    }
}

/// Moves files over a stream in chunks, tracking each transfer's progress.
pub struct FileTransfer {
    chunk_size: usize,
    progress_tracker: ProgressTracker,
}

impl FileTransfer {
    /// Bytes read per chunk.
    pub closed spec fn chunk(&self) -> usize {
        self.chunk_size
    }

    /// The progress of the transfers made.
    pub closed spec fn progress(&self) -> Map<Id, TransferProgress> {
        self.progress_tracker@
    }

    /// Transfers in chunks of the default size, none tracked yet.
    pub fn new() -> (t: Self)
        ensures
            t.chunk() == DEFAULT_CHUNK_SIZE,
            t.progress() == Map::<Id, TransferProgress>::empty(),
    {
        FileTransfer { chunk_size: DEFAULT_CHUNK_SIZE, progress_tracker: ProgressTracker::new() }
    }

    /// Transfers in chunks of the given size, none tracked yet.
    pub fn with_chunk_size(chunk_size: usize) -> (t: Self)
        ensures
            t.chunk() == chunk_size,
            t.progress() == Map::<Id, TransferProgress>::empty(),
    {
        FileTransfer { chunk_size, progress_tracker: ProgressTracker::new() }
    }

    /// Bytes read per chunk.
    pub fn chunk_size(&self) -> (n: usize)
        ensures
            n == self.chunk(),
    {
        self.chunk_size
    }

    /// The tracker of the transfers' progress.
    pub fn get_progress_tracker(&self) -> (t: &ProgressTracker)
        ensures
            t@ == self.progress(),
    {
        &self.progress_tracker
    }

    /// Starts sending a file: tracks the transfer and gives the metadata
    /// message (name, size and checksum as JSON) to send first.
    pub fn begin_send(&mut self, transfer_id: Id, file_name: String, file_size: u64, checksum: String) -> (r: Result<Message, TransferError>)
        ensures
            final(self).chunk() == old(self).chunk(),
            final(self).progress() == spec_start(old(self).progress(), transfer_id, file_name, file_size),
            r matches Ok(m) && is_transfer_message(m, MessageType::FileMetadata, json_metadata_bytes(file_name@, file_size, checksum@))
                && json_metadata_value(m.payload@) == Some((file_name@, file_size, checksum@)),
    {
        let data = json_encode_metadata(&file_name, file_size, &checksum);
        self.progress_tracker.start_transfer(transfer_id, file_name, file_size);
        match data {
            Ok(b) => Ok(transfer_message(MessageType::FileMetadata, b)),
            Err(text) => Err(TransferError::Serialization(text)),
        }
    }

    /// The offset to send from, read from the receiver's reply to the
    /// metadata: 0 after an acknowledgment, the requested offset after a
    /// resumption request inside the file.
    pub fn start_offset(reply: &Message, file_size: u64) -> (r: Result<u64, TransferError>)
        ensures
            r is Ok <==> sender_start(*reply, file_size) is Some,
            reply.msg_type == MessageType::Ack ==> r == Ok::<u64, TransferError>(0),
            r matches Ok(o) ==> sender_start(*reply, file_size) == Some(o),
            reply.msg_type == MessageType::FileRequest && json_u64_value(reply.payload@) is None ==> r matches Err(
                TransferError::Serialization(_),
            ),
            reply.msg_type == MessageType::FileRequest ==> (json_u64_value(reply.payload@) matches Some(o) && o
                >= file_size ==> (r matches Err(e) && is_invalid(e, "Invalid resumption offset"@))),
            reply.msg_type != MessageType::Ack && reply.msg_type != MessageType::FileRequest ==> (r matches Err(
                e,
            ) && is_invalid(e, "Unexpected response type"@)),
    {
        match reply.msg_type {
            MessageType::Ack => Ok(0),
            MessageType::FileRequest => {
                match json_decode_u64(reply.payload.as_slice()) {
                    Ok(offset) => {
                        if offset >= file_size {
                            Err(TransferError::InvalidMessage("Invalid resumption offset".to_owned()))
                        } else {
                            Ok(offset)
                        }
                    },
                    Err(text) => Err(TransferError::Serialization(text)),
                }
            },
            _ => Err(TransferError::InvalidMessage("Unexpected response type".to_owned())),
        }
    }

    /// The chunk message for bytes read at `offset`, and the offset after
    /// them; the transfer's progress is set to that offset. Nothing where
    /// nothing was read: the file has ended.
    pub fn send_chunk(&mut self, transfer_id: Id, offset: u64, data: Vec<u8>) -> (r: Option<(Message, u64)>)
        requires
            offset + data@.len() <= u64::MAX,
        ensures
            final(self).chunk() == old(self).chunk(),
            data@.len() == 0 ==> r is None && final(self).progress() == old(self).progress(),
            data@.len() > 0 ==> (r matches Some((m, next)) && is_transfer_message(m, MessageType::FileChunk, data@)
                && next == offset + data@.len()
                && final(self).progress() == spec_update(old(self).progress(), transfer_id, next)),
    {
        if data.len() == 0 {
            return None;
        }
        let next: u64 = offset + data.len() as u64;
        self.progress_tracker.update_progress(transfer_id, next);
        Some((transfer_message(MessageType::FileChunk, data), next))
    }

    /// Checks the receiver's answer to a chunk: it must acknowledge it.
    pub fn check_ack(reply: &Message) -> (r: Result<(), TransferError>)
        ensures
            reply.msg_type == MessageType::Ack ==> r is Ok,
            reply.msg_type != MessageType::Ack ==> (r matches Err(e) && is_invalid(e, "Expected acknowledgment"@)),
    {
        match reply.msg_type {
            MessageType::Ack => Ok(()),
            _ => Err(TransferError::InvalidMessage("Expected acknowledgment".to_owned())),
        }
    }

    /// The message that ends the chunks of a file.
    pub fn complete_message() -> (m: Message)
        ensures
            is_transfer_message(m, MessageType::FileComplete, Seq::empty()),
    {
        transfer_message(MessageType::FileComplete, Vec::new())
    }

    /// The acknowledgment of a message.
    pub fn ack_message() -> (m: Message)
        ensures
            is_transfer_message(m, MessageType::Ack, Seq::empty()),
    {
        transfer_message(MessageType::Ack, Vec::new())
    }

    /// Marks a transfer completed.
    pub fn complete(&mut self, transfer_id: Id)
        ensures
            final(self).chunk() == old(self).chunk(),
            final(self).progress() == spec_complete(old(self).progress(), transfer_id),
    {
        self.progress_tracker.complete_transfer(transfer_id);
    }

    /// Starts receiving a file from its metadata message: the offered
    /// name, size and checksum; the transfer is tracked from then on.
    pub fn begin_receive(&mut self, transfer_id: Id, metadata: &Message) -> (r: Result<(String, u64, String), TransferError>)
        ensures
            final(self).chunk() == old(self).chunk(),
            metadata.msg_type != MessageType::FileMetadata ==> (r matches Err(e) && is_invalid(e, "Expected file metadata"@))
                && final(self).progress() == old(self).progress(),
            metadata.msg_type == MessageType::FileMetadata && received_metadata(*metadata) is None ==> (r matches Err(
                TransferError::Serialization(_),
            )) && final(self).progress() == old(self).progress(),
            received_metadata(*metadata) matches Some((name, size, checksum)) ==> (r matches Ok((n, s, c)) && n@ == name
                && s == size && c@ == checksum && final(self).progress() == spec_start(
                old(self).progress(),
                transfer_id,
                n,
                s,
            )),
    {
        match metadata.msg_type {
            MessageType::FileMetadata => {},
            _ => {
                return Err(TransferError::InvalidMessage("Expected file metadata".to_owned()));
            },
        }
        match json_decode_metadata(metadata.payload.as_slice()) {
            Ok((name, size, checksum)) => {
                self.progress_tracker.start_transfer(transfer_id, name.clone(), size);
                Ok((name, size, checksum))
            },
            Err(text) => Err(TransferError::Serialization(text)),
        }
    }

    /// The receiver's plan for an offered file of `file_size` bytes whose
    /// checksum is `expected_checksum`, given the length and checksum of the
    /// file already on disk (if any) and the record of an interrupted
    /// transfer into it (if one was kept).
    pub fn plan_receive(
        existing_size: Option<u64>,
        file_size: u64,
        existing_checksum: &str,
        expected_checksum: &str,
        record: &Option<TransferState>,
    ) -> (p: ReceivePlan)
        ensures
            p == receive_plan_spec(
                existing_size,
                file_size,
                prefix_known(existing_size, file_size, existing_checksum@, expected_checksum@, *record),
            ),
    {
        match existing_size {
            None => ReceivePlan::Fresh,
            Some(n) => {
                if n >= file_size {
                    ReceivePlan::AlreadyComplete
                } else if str_equals(existing_checksum, expected_checksum) {
                    ReceivePlan::Resume(n)
                } else {
                    let recorded = match record {
                        Some(st) => st.file_size == file_size && st.transferred_bytes == n
                            && str_equals(st.checksum.as_str(), expected_checksum),
                        None => false,
                    };
                    if recorded {
                        ReceivePlan::Resume(n)
                    } else {
                        ReceivePlan::Fresh
                    }
                }
            },
        }
    }

    /// The reply to the metadata for a plan: a resumption request carrying
    /// the offset as JSON, else an acknowledgment.
    pub fn plan_reply(plan: ReceivePlan) -> (r: Result<Message, TransferError>)
        ensures
            match plan {
                ReceivePlan::Resume(n) => r matches Ok(m) && is_transfer_message(m, MessageType::FileRequest, decimal_bytes(n as nat))
                    && json_u64_value(m.payload@) == Some(n),
                _ => r matches Ok(m) && is_transfer_message(m, MessageType::Ack, Seq::empty()),
            },
    {
        match plan {
            ReceivePlan::Resume(n) => {
                match json_encode_u64(n) {
                    Ok(b) => Ok(transfer_message(MessageType::FileRequest, b)),
                    Err(text) => Err(TransferError::Serialization(text)),
                }
            },
            _ => Ok(FileTransfer::ack_message()),
        }
    }

    /// Takes in a chunk after `received` bytes: the count after it, and
    /// the acknowledgment to send; the transfer's progress is set to that
    /// count.
    pub fn receive_chunk(&mut self, transfer_id: Id, received: u64, chunk: &Message) -> (r: Result<(u64, Message), TransferError>)
        requires
            received + chunk.payload@.len() <= u64::MAX,
        ensures
            final(self).chunk() == old(self).chunk(),
            chunk.msg_type != MessageType::FileChunk ==> (r matches Err(e) && is_invalid(e, "Expected file chunk"@))
                && final(self).progress() == old(self).progress(),
            chunk.msg_type == MessageType::FileChunk ==> (r matches Ok((n, m)) && n == received + chunk.payload@.len()
                && is_transfer_message(m, MessageType::Ack, Seq::empty())
                && final(self).progress() == spec_update(old(self).progress(), transfer_id, n)),
    {
        match chunk.msg_type {
            MessageType::FileChunk => {
                let n: u64 = received + chunk.payload.len() as u64;
                self.progress_tracker.update_progress(transfer_id, n);
                Ok((n, FileTransfer::ack_message()))
            },
            _ => Err(TransferError::InvalidMessage("Expected file chunk".to_owned())),
        }
    }

    /// Checks the message after the last chunk: it must end the file.
    pub fn check_completion(msg: &Message) -> (r: Result<(), TransferError>)
        ensures
            msg.msg_type == MessageType::FileComplete ==> r is Ok,
            msg.msg_type != MessageType::FileComplete ==> (r matches Err(e) && is_invalid(e, "Expected completion message"@)),
    {
        match msg.msg_type {
            MessageType::FileComplete => Ok(()),
            _ => Err(TransferError::InvalidMessage("Expected completion message".to_owned())),
        }
    }

    /// Ends a reception: where the received file's checksum is the offered
    /// one the transfer is marked completed, else it fails.
    pub fn finish_receive(&mut self, transfer_id: Id, final_checksum: &str, expected_checksum: &str) -> (r: Result<(), TransferError>)
        ensures
            final(self).chunk() == old(self).chunk(),
            final_checksum@ == expected_checksum@ ==> r is Ok && final(self).progress() == spec_complete(old(self).progress(), transfer_id),
            final_checksum@ != expected_checksum@ ==> (r matches Err(e) && is_invalid(e, "File checksum mismatch"@))
                && final(self).progress() == old(self).progress(),
    {
        if !str_equals(final_checksum, expected_checksum) {
            return Err(TransferError::InvalidMessage("File checksum mismatch".to_owned()));
        }
        self.progress_tracker.complete_transfer(transfer_id);
        Ok(())
    }
}

impl Default for FileTransfer {
    fn default() -> (t: Self)
        ensures
            t.chunk() == DEFAULT_CHUNK_SIZE,
            t.progress() == Map::<Id, TransferProgress>::empty(),
    {
        FileTransfer::new()
    }
}

/// What the sender announces is what the receiver takes in: the metadata
/// message of a sender that starts a transfer reads back, at the receiver,
/// as exactly the file's name, size and checksum.
pub proof fn law_metadata_reaches_receiver(m: Message, name: Seq<char>, size: u64, checksum: Seq<char>)
    requires
        is_transfer_message(m, MessageType::FileMetadata, json_metadata_bytes(name, size, checksum)),
        json_metadata_value(m.payload@) == Some((name, size, checksum)),
    ensures
        received_metadata(m) == Some((name, size, checksum)),
{
}

/// A resumption request that a receiver sends for a partial file makes the
/// sender start exactly where the file on disk ends.
pub proof fn law_resume_request_sets_offset(m: Message, existing: u64, file_size: u64)
    requires
        existing < file_size,
        is_transfer_message(m, MessageType::FileRequest, m.payload@),
        json_u64_value(m.payload@) == Some(existing),
    ensures
        sender_start(m, file_size) == Some(existing),
{
}

/// A receiver resumes exactly the files on disk that are shorter than the
/// offered one and known to be its start, from their length; a shorter file
/// not known to be its start is written afresh, a longer or equal file is
/// complete, and a missing one is written afresh.
pub proof fn law_resume_partial(existing_size: Option<u64>, file_size: u64, known: bool)
    ensures
        (existing_size matches Some(n) && n < file_size && known) ==> receive_plan_spec(existing_size, file_size, known)
            == ReceivePlan::Resume(existing_size->0),
        (existing_size matches Some(n) && n < file_size && !known) ==> receive_plan_spec(existing_size, file_size, known)
            == ReceivePlan::Fresh,
        receive_plan_spec(existing_size, file_size, known) matches ReceivePlan::Resume(n) ==> existing_size == Some(n)
            && n < file_size && known,
        (existing_size matches Some(n) && n >= file_size) ==> receive_plan_spec(existing_size, file_size, known)
            == ReceivePlan::AlreadyComplete,
        existing_size is None ==> receive_plan_spec(existing_size, file_size, known) == ReceivePlan::Fresh,
{
}

/// The bytes that chunk messages carry, one payload after another.
pub open spec fn carried_bytes(ms: Seq<Message>) -> Seq<u8>
    decreases ms.len(),
{
    if ms.len() == 0 {
        Seq::empty()
    } else {
        carried_bytes(ms.drop_last()) + ms.last().payload@
    }
}

/// Pieces of data, one after another.
pub open spec fn joined(ds: Seq<Seq<u8>>) -> Seq<u8>
    decreases ds.len(),
{
    if ds.len() == 0 {
        Seq::empty()
    } else {
        joined(ds.drop_last()) + ds.last()
    }
}

/// What a receiver takes in from the chunk messages of a sender is what
/// the sender read, in the same order: the payloads it appends, one after
/// another, are the pieces the sender read, so that both sides count the
/// same number of bytes past the offset they started from.
pub proof fn law_received_bytes_are_sent_bytes(ms: Seq<Message>, ds: Seq<Seq<u8>>)
    requires
        ms.len() == ds.len(),
        forall|i: int| 0 <= i < ms.len() ==> is_transfer_message(#[trigger] ms[i], MessageType::FileChunk, ds[i]),
    ensures
        carried_bytes(ms) == joined(ds),
        carried_bytes(ms).len() == joined(ds).len(),
    decreases ms.len(),
{
    if ms.len() > 0 {
        let k = ms.len() - 1;
        assert(is_transfer_message(ms[k], MessageType::FileChunk, ds[k]));
        assert forall|i: int| 0 <= i < ms.drop_last().len() implies is_transfer_message(
            #[trigger] ms.drop_last()[i],
            MessageType::FileChunk,
            ds.drop_last()[i],
        ) by {
            assert(ms.drop_last()[i] == ms[i]);
            assert(ds.drop_last()[i] == ds[i]);
            assert(is_transfer_message(ms[i], MessageType::FileChunk, ds[i]));
        }
        law_received_bytes_are_sent_bytes(ms.drop_last(), ds.drop_last());
    }
}

/// A whole transfer delivers the file. The receiver keeps a start of the
/// sender's file (nothing, for a fresh transfer; the file's first `n`
/// bytes, for a resumption from `n`, which is where the sender then starts)
/// and appends what the sender's chunk messages carry; where those chunks
/// are the rest of the file, read in order, the receiver ends up with the
/// sender's file, so its checksum is the one the sender offered and
/// `finish_receive` marks the transfer completed.
pub proof fn law_transfer_delivers_file(file: Seq<u8>, kept: Seq<u8>, ms: Seq<Message>, ds: Seq<Seq<u8>>)
    requires
        kept.len() <= file.len(),
        kept == file.take(kept.len() as int),
        ms.len() == ds.len(),
        forall|i: int| 0 <= i < ms.len() ==> is_transfer_message(#[trigger] ms[i], MessageType::FileChunk, ds[i]),
        joined(ds) == file.skip(kept.len() as int),
    ensures
        kept + carried_bytes(ms) == file,
        checksum_text(kept + carried_bytes(ms)) == checksum_text(file),
{
    law_received_bytes_are_sent_bytes(ms, ds);
    assert(kept + carried_bytes(ms) =~= file);
}

/// How many bytes of the offered file a receiver keeps under a plan: none
/// for a fresh transfer, the length on disk for a resumption.
pub open spec fn kept_length(plan: ReceivePlan) -> u64 {
    match plan {
        ReceivePlan::Resume(n) => n,
        _ => 0,
    }
}

/// The sender starts exactly where the receiver's file ends: after an
/// acknowledgment (a fresh transfer) it sends from the first byte, and
/// after a resumption request from the length the receiver keeps. Whatever
/// the size of the file, an acknowledgment never makes it skip a byte.
pub proof fn law_sender_starts_where_receiver_keeps(reply: Message, plan: ReceivePlan, file_size: u64)
    requires
        plan is Resume ==> kept_length(plan) < file_size && reply.msg_type == MessageType::FileRequest
            && json_u64_value(reply.payload@) == Some(kept_length(plan)),
        !(plan is Resume) ==> reply.msg_type == MessageType::Ack,
    ensures
        sender_start(reply, file_size) == Some(kept_length(plan)),
        reply.msg_type == MessageType::Ack ==> sender_start(reply, file_size) == Some(0u64),
{
}

/// The sender never starts beyond the file: any start offset it accepts
/// lies inside the file, or is 0.
pub proof fn law_start_inside_file(reply: Message, file_size: u64)
    ensures
        sender_start(reply, file_size) matches Some(o) ==> o == 0 || o < file_size,
{
}

} // verus!
