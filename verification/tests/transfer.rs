use leni_deni::network::file_transfer::{
    transfer_message, FileTransfer, ReceivePlan, TransferError, TransferState, DEFAULT_CHUNK_SIZE,
};
use leni_deni::network::protocol::MessageType;
use leni_deni::transfer::checksum::{sha256_hex, to_hex};
use leni_deni::transfer::chunking::FileChunker;
use leni_deni::transfer::progress::{ProgressTracker, TransferStatus};
use leni_deni::transfer::verification::{VerificationError, VerificationManager, VERIFY_CHUNK_SIZE};

const ABC_SHA256: &str = "ba7816bf8f01cfea414140de5dae2223b00361a396177a9cb410ff61f20015ad";
const EMPTY_SHA256: &str = "e3b0c44298fc1c149afbf4c8996fb92427ae41e4649b934ca495991b7852b855";

fn invalid(e: TransferError) -> String {
    match e {
        TransferError::InvalidMessage(s) => s,
        other => panic!("not an invalid message: {:?}", other),
    }
}

#[test]
fn chunk_counts() {
    let c = FileChunker::new();
    assert_eq!(c.get_chunk_size(), 1024 * 1024);
    assert_eq!(c.get_chunk_count(0), 0);
    assert_eq!(c.get_chunk_count(1), 1);
    assert_eq!(c.get_chunk_count(1024 * 1024), 1);
    assert_eq!(c.get_chunk_count(1024 * 1024 + 1), 2);
    assert_eq!(FileChunker::with_chunk_size(16).get_chunk_count(u64::MAX - 15), (u64::MAX - 15) / 16);
    assert_eq!(FileChunker::with_chunk_size(1).get_chunk_count(u64::MAX), u64::MAX);
    let small = FileChunker::with_chunk_size(10);
    assert_eq!(small.get_chunk_size(), 10);
    assert_eq!(small.get_chunk_count(95), 10);
    assert_eq!(FileChunker::default().get_chunk_size(), 1024 * 1024);
}

#[test]
fn chunk_from_read_trims_buffer() {
    let c = FileChunker::with_chunk_size(4);
    assert_eq!(c.chunk_from_read(vec![1, 2, 3, 4], 0), None);
    assert_eq!(c.chunk_from_read(vec![1, 2, 3, 4], 3), Some(vec![1, 2, 3]));
    assert_eq!(c.chunk_from_read(vec![1, 2, 3, 4], 4), Some(vec![1, 2, 3, 4]));
}

#[test]
fn sha256_known_vectors() {
    assert_eq!(sha256_hex(b"abc"), ABC_SHA256);
    assert_eq!(sha256_hex(b""), EMPTY_SHA256);
    assert_eq!(FileChunker::new().calculate_checksum(b"abc"), ABC_SHA256);
    assert_eq!(FileChunker::new().calculate_checksum(&[5u8; 3000]).len(), 64);
}

#[test]
fn hex_text() {
    assert_eq!(to_hex(&[0x00, 0x0f, 0xa0, 0xff]), "000fa0ff");
    assert_eq!(to_hex(&[]), "");
}

#[test]
fn progress_lifecycle() {
    let mut t = ProgressTracker::new();
    t.start_transfer(1, "a.txt".to_string(), 100);
    let p = t.get_progress(1).unwrap();
    assert_eq!((p.file_name.as_str(), p.file_size, p.transferred_bytes), ("a.txt", 100, 0));
    assert_eq!(p.status, TransferStatus::InProgress);
    t.update_progress(1, 40);
    assert_eq!(t.get_progress(1).unwrap().transferred_bytes, 40);
    t.complete_transfer(1);
    let p = t.get_progress(1).unwrap();
    assert_eq!(p.status, TransferStatus::Completed);
    assert_eq!(p.transferred_bytes, 100);
    t.create_transfer(2, "b".to_string(), 5);
    t.fail_transfer(2, "broken".to_string());
    assert_eq!(t.get_progress(2).unwrap().status, TransferStatus::Failed("broken".to_string()));
    t.update_progress(3, 10);
    assert!(t.get_progress(3).is_none());
    t.cleanup(1);
    assert!(t.get_progress(1).is_none());
    assert!(ProgressTracker::default().get_progress(2).is_none());
}

#[test]
fn verification_of_all_chunks() {
    let mut v = VerificationManager::new();
    let size = 2 * VERIFY_CHUNK_SIZE + 1;
    v.start_verification_at(9, size, "sum".to_string(), 0).unwrap();
    assert_eq!(v.verify_complete(9, "sum"), Ok(false));
    for i in 0..3 {
        assert_eq!(v.verify_chunk_at(9, i, &[1, 2, 3], 1), Ok(true));
    }
    assert_eq!(v.verify_chunk_at(9, 3, &[1], 1), Err(VerificationError::InvalidChunkIndex));
    assert_eq!(v.verify_complete(9, "sum"), Ok(true));
    assert_eq!(v.verify_complete(9, "other"), Ok(false));
    assert_eq!(v.verify_complete(8, "sum"), Err(VerificationError::TransferNotFound));
    assert_eq!(v.verify_chunk_at(8, 0, &[], 1), Err(VerificationError::TransferNotFound));
}

#[test]
fn missing_chunk_fails_verification() {
    let mut v = VerificationManager::default();
    v.start_verification(1, 3 * VERIFY_CHUNK_SIZE, "s".to_string()).unwrap();
    v.verify_chunk(1, 0, &[0]).unwrap();
    v.verify_chunk(1, 2, &[0]).unwrap();
    assert_eq!(v.verify_complete(1, "s"), Ok(false));
}

#[test]
fn verification_expiry() {
    let mut v = VerificationManager::new();
    v.start_verification_at(1, 10, "s".to_string(), 0).unwrap();
    v.start_verification_at(2, 10, "s".to_string(), 3_500_000_000_000).unwrap();
    v.cleanup_expired_at(3_600_000_000_001).unwrap();
    assert_eq!(v.verify_complete(1, "s"), Err(VerificationError::TransferNotFound));
    assert_eq!(v.verify_complete(2, "s"), Ok(false));
}

#[test]
fn transfer_state_holds_fields() {
    let s = TransferState {
        file_name: "f".to_string(),
        file_size: 10,
        transferred_bytes: 4,
        checksum: "c".to_string(),
    };
    let t = s.clone();
    assert_eq!((t.file_name, t.file_size, t.transferred_bytes, t.checksum), ("f".to_string(), 10, 4, "c".to_string()));
}

#[test]
fn sender_metadata_reaches_receiver() {
    let mut sender = FileTransfer::new();
    assert_eq!(sender.chunk_size(), DEFAULT_CHUNK_SIZE);
    let m = sender.begin_send(1, "notes \"1\".txt".to_string(), 2048, ABC_SHA256.to_string()).unwrap();
    assert_eq!(m.msg_type, MessageType::FileMetadata);
    assert_eq!((m.version, m.message_id, m.sender_id), (1, 0, 0));
    assert_eq!(m.payload, format!("[\"notes \\\"1\\\".txt\",2048,\"{}\"]", ABC_SHA256).into_bytes());
    let p = sender.get_progress_tracker().get_progress(1).unwrap();
    assert_eq!((p.file_size, p.transferred_bytes), (2048, 0));
    let mut receiver = FileTransfer::with_chunk_size(16);
    let (name, size, sum) = receiver.begin_receive(2, &m).unwrap();
    assert_eq!((name.as_str(), size, sum.as_str()), ("notes \"1\".txt", 2048, ABC_SHA256));
    assert_eq!(receiver.get_progress_tracker().get_progress(2).unwrap().file_name, "notes \"1\".txt");
}

#[test]
fn receiver_refuses_other_first_message() {
    let mut r = FileTransfer::new();
    let e = r.begin_receive(1, &FileTransfer::ack_message()).unwrap_err();
    assert_eq!(invalid(e), "Expected file metadata");
    let bad = transfer_message(MessageType::FileMetadata, b"{".to_vec());
    assert!(matches!(r.begin_receive(1, &bad), Err(TransferError::Serialization(_))));
    assert!(r.get_progress_tracker().get_progress(1).is_none());
}

#[test]
fn receive_plans() {
    let record = |done: u64, sum: &str| {
        Some(TransferState { file_name: "f".to_string(), file_size: 10, transferred_bytes: done, checksum: sum.to_string() })
    };
    assert_eq!(FileTransfer::plan_receive(None, 10, "", "x", &None), ReceivePlan::Fresh);
    assert_eq!(FileTransfer::plan_receive(Some(10), 10, "", "x", &None), ReceivePlan::AlreadyComplete);
    assert_eq!(FileTransfer::plan_receive(Some(12), 10, "", "x", &None), ReceivePlan::AlreadyComplete);
    assert_eq!(FileTransfer::plan_receive(Some(4), 10, "x", "x", &None), ReceivePlan::Resume(4));
    assert_eq!(FileTransfer::plan_receive(Some(4), 10, "y", "x", &None), ReceivePlan::Fresh);
    assert_eq!(FileTransfer::plan_receive(Some(4), 10, "y", "x", &record(4, "x")), ReceivePlan::Resume(4));
    assert_eq!(FileTransfer::plan_receive(Some(4), 10, "y", "x", &record(3, "x")), ReceivePlan::Fresh);
    assert_eq!(FileTransfer::plan_receive(Some(4), 10, "y", "x", &record(4, "z")), ReceivePlan::Fresh);
}

#[test]
fn resume_request_sets_sender_offset() {
    let req = FileTransfer::plan_reply(ReceivePlan::Resume(1234)).unwrap();
    assert_eq!(req.msg_type, MessageType::FileRequest);
    assert_eq!(req.payload, b"1234".to_vec());
    assert_eq!(FileTransfer::start_offset(&req, 2000).unwrap(), 1234);
    assert_eq!(invalid(FileTransfer::start_offset(&req, 1234).unwrap_err()), "Invalid resumption offset");
    let ack = FileTransfer::plan_reply(ReceivePlan::Fresh).unwrap();
    assert_eq!(ack.msg_type, MessageType::Ack);
    assert!(ack.payload.is_empty());
    assert_eq!(FileTransfer::start_offset(&ack, 0).unwrap(), 0);
    assert_eq!(FileTransfer::plan_reply(ReceivePlan::AlreadyComplete).unwrap().msg_type, MessageType::Ack);
    let chunk = transfer_message(MessageType::FileChunk, vec![]);
    assert_eq!(invalid(FileTransfer::start_offset(&chunk, 10).unwrap_err()), "Unexpected response type");
    let garbled = transfer_message(MessageType::FileRequest, b"x".to_vec());
    assert!(matches!(FileTransfer::start_offset(&garbled, 10), Err(TransferError::Serialization(_))));
}

#[test]
fn chunks_move_offsets_on_both_sides() {
    let mut sender = FileTransfer::with_chunk_size(3);
    let mut receiver = FileTransfer::with_chunk_size(3);
    sender.begin_send(1, "f".to_string(), 5, "c".to_string()).unwrap();
    receiver.begin_receive(2, &sender.begin_send(1, "f".to_string(), 5, "c".to_string()).unwrap()).unwrap();
    let (m1, off1) = sender.send_chunk(1, 0, vec![1, 2, 3]).unwrap();
    assert_eq!(off1, 3);
    assert_eq!(m1.msg_type, MessageType::FileChunk);
    assert_eq!(sender.get_progress_tracker().get_progress(1).unwrap().transferred_bytes, 3);
    let (got1, ack1) = receiver.receive_chunk(2, 0, &m1).unwrap();
    assert_eq!(got1, 3);
    assert_eq!(FileTransfer::check_ack(&ack1).unwrap(), ());
    let (m2, off2) = sender.send_chunk(1, off1, vec![4, 5]).unwrap();
    assert_eq!(off2, 5);
    let (got2, _) = receiver.receive_chunk(2, got1, &m2).unwrap();
    assert_eq!(got2, 5);
    assert_eq!(receiver.get_progress_tracker().get_progress(2).unwrap().transferred_bytes, 5);
    assert!(sender.send_chunk(1, off2, vec![]).is_none());
    let done = FileTransfer::complete_message();
    assert_eq!(done.msg_type, MessageType::FileComplete);
    assert!(FileTransfer::check_completion(&done).is_ok());
    sender.complete(1);
    assert_eq!(sender.get_progress_tracker().get_progress(1).unwrap().status, TransferStatus::Completed);
    assert!(receiver.finish_receive(2, "c", "c").is_ok());
    assert_eq!(receiver.get_progress_tracker().get_progress(2).unwrap().status, TransferStatus::Completed);
}

#[test]
fn protocol_violations_are_reported() {
    let mut r = FileTransfer::default();
    assert_eq!(invalid(r.receive_chunk(1, 0, &FileTransfer::ack_message()).unwrap_err()), "Expected file chunk");
    assert_eq!(invalid(FileTransfer::check_ack(&FileTransfer::complete_message()).unwrap_err()), "Expected acknowledgment");
    assert_eq!(invalid(FileTransfer::check_completion(&FileTransfer::ack_message()).unwrap_err()), "Expected completion message");
    r.get_progress_tracker();
    assert_eq!(invalid(r.finish_receive(1, "a", "b").unwrap_err()), "File checksum mismatch");
}

#[test]
fn resumed_transfer_delivers_the_file() {
    let file: Vec<u8> = (0u8..50).collect();
    let kept = file[..20].to_vec();
    let mut sender = FileTransfer::with_chunk_size(8);
    let mut receiver = FileTransfer::with_chunk_size(8);
    let meta = sender.begin_send(1, "f".to_string(), 50, sha256_hex(&file)).unwrap();
    let (_, size, sum) = receiver.begin_receive(2, &meta).unwrap();
    let plan = FileTransfer::plan_receive(Some(20), size, &sha256_hex(&kept), &sum, &None);
    assert_eq!(plan, ReceivePlan::Fresh);
    let record = Some(TransferState { file_name: "f".to_string(), file_size: 50, transferred_bytes: 20, checksum: sum.clone() });
    let plan = FileTransfer::plan_receive(Some(20), size, &sha256_hex(&kept), &sum, &record);
    assert_eq!(plan, ReceivePlan::Resume(20));
    let reply = FileTransfer::plan_reply(plan).unwrap();
    let mut offset = FileTransfer::start_offset(&reply, 50).unwrap();
    let mut got = kept.clone();
    let mut received = 20u64;
    while offset < 50 {
        let end = std::cmp::min(offset as usize + 8, 50);
        let (m, next) = sender.send_chunk(1, offset, file[offset as usize..end].to_vec()).unwrap();
        let (n, _) = receiver.receive_chunk(2, received, &m).unwrap();
        got.extend_from_slice(&m.payload);
        offset = next;
        received = n;
    }
    assert_eq!(got, file);
    assert_eq!(received, 50);
    assert!(receiver.finish_receive(2, &sha256_hex(&got), &sum).is_ok());
}
