use vstd::prelude::*;
use std::collections::HashMap;

use crate::clock::{is_younger_than, now, younger_than, Timestamp, NANOS_PER_SEC};
use crate::ids::Id;
use crate::keys::{lemma_take_one_more, map_keys};
use crate::transfer::checksum::sha256_hex;
use crate::transfer::chunking::chunk_count;

verus! {

broadcast use vstd::std_specs::hash::group_hash_axioms;

/// Size of a verified chunk: one mebibyte.
pub const VERIFY_CHUNK_SIZE: u64 = 1048576;

/// How long a verification record is kept after its last activity: one hour.
pub const VERIFICATION_MAX_AGE: u64 = 3600 * NANOS_PER_SEC;

/// Errors of transfer verification.
#[derive(Debug, Clone, Copy, PartialEq, Eq, Structural)]
pub enum VerificationError {
    /// No verification is under way for the transfer.
    TransferNotFound,
    /// The chunk index is past the file's last chunk.
    InvalidChunkIndex,
}

/// Verification state of one transfer.
#[derive(Debug, Clone)]
pub struct TransferVerification {
    pub file_size: u64,
    pub checksum: String,
    pub chunks_verified: Vec<bool>,
    pub last_verified: Timestamp,
}

/// Verification state as values: size, checksum text, which chunks are
/// verified, last activity.
pub struct VerificationView {
    pub file_size: u64,
    pub checksum: Seq<char>,
    pub chunks_verified: Seq<bool>,
    pub last_verified: Timestamp,
}

impl TransferVerification {
    pub open spec fn spec_view(&self) -> VerificationView {
        VerificationView {
            file_size: self.file_size,
            checksum: self.checksum@,
            chunks_verified: self.chunks_verified@,
            last_verified: self.last_verified,
        }
    }
}

/// Number of chunks a file of `file_size` bytes is verified in.
pub open spec fn verify_chunk_count(file_size: u64) -> int {
    chunk_count(file_size as int, VERIFY_CHUNK_SIZE as int)
}

/// The state a verification starts in: no chunk verified.
pub open spec fn fresh_verification(file_size: u64, checksum: Seq<char>, now: Timestamp) -> VerificationView {
    VerificationView {
        file_size,
        checksum,
        chunks_verified: Seq::new((verify_chunk_count(file_size) as usize) as nat, |i: int| false),
        last_verified: now,
    }
}

/// Whether every chunk is verified.
pub open spec fn all_verified(chunks: Seq<bool>) -> bool {
    forall|i: int| 0 <= i < chunks.len() ==> chunks[i]
}

/// Whether a transfer verifies: every chunk verified and the checksum given
/// equals the one recorded.
pub open spec fn verifies(v: VerificationView, final_checksum: Seq<char>) -> bool {
    all_verified(v.chunks_verified) && v.checksum == final_checksum
}

/// Tracks the verification of transfers by id.
pub struct VerificationManager {
    transfers: HashMap<Id, TransferVerification>,
}

impl View for VerificationManager {
    type V = Map<Id, VerificationView>;

    closed spec fn view(&self) -> Map<Id, VerificationView> {
        self.transfers@.map_values(|t: TransferVerification| t.spec_view())
    }
}

impl VerificationManager {
    /// A manager with no verification under way.
    pub fn new() -> (m: Self)
        ensures
            m@ == Map::<Id, VerificationView>::empty(),
    {
        let m = VerificationManager { transfers: HashMap::new() };
        assert(m@ =~= Map::<Id, VerificationView>::empty());
        m
    }

    /// Starts verifying a transfer of `file_size` bytes whose checksum is
    /// `initial_checksum`, at the current time.
    pub fn start_verification(&mut self, transfer_id: Id, file_size: u64, initial_checksum: String) -> (r: Result<(), VerificationError>)
        requires
            file_size + VERIFY_CHUNK_SIZE - 1 <= u64::MAX,
        ensures
            r is Ok,
            exists|t: Timestamp| final(self)@ == old(self)@.insert(transfer_id, fresh_verification(file_size, initial_checksum@, t)),
    {
        let t = now();
        self.start_verification_at(transfer_id, file_size, initial_checksum, t)
    }

    /// Starts verifying a transfer of `file_size` bytes whose checksum is
    /// `initial_checksum`, at time `now`: one unverified flag per
    /// mebibyte chunk. A verification already under way for the id is
    /// replaced.
    pub fn start_verification_at(&mut self, transfer_id: Id, file_size: u64, initial_checksum: String, now: Timestamp) -> (r: Result<(), VerificationError>)
        requires
            file_size + VERIFY_CHUNK_SIZE - 1 <= u64::MAX,
        ensures
            r is Ok,
            final(self)@ == old(self)@.insert(transfer_id, fresh_verification(file_size, initial_checksum@, now)),
    {
        let count = ((file_size + (VERIFY_CHUNK_SIZE - 1)) / VERIFY_CHUNK_SIZE) as usize;
        let chunks_verified = vec![false; count];
        let record = TransferVerification {
            file_size,
            checksum: initial_checksum,
            chunks_verified,
            last_verified: now,
        };
        assert(record.spec_view().chunks_verified =~= fresh_verification(file_size, record.checksum@, now).chunks_verified);
        self.transfers.insert(transfer_id, record);
        assert(self@ =~= old(self)@.insert(transfer_id, fresh_verification(file_size, initial_checksum@, now)));
        Ok(())
    }

    /// Marks chunk `chunk_index` of a transfer verified at the current time.
    pub fn verify_chunk(&mut self, transfer_id: Id, chunk_index: usize, chunk_data: &[u8]) -> (r: Result<bool, VerificationError>)
        ensures
            !old(self)@.contains_key(transfer_id) ==> r == Err::<bool, VerificationError>(VerificationError::TransferNotFound) && final(self)@ == old(self)@,
            old(self)@.contains_key(transfer_id) && chunk_index >= old(self)@[transfer_id].chunks_verified.len() ==> r == Err::<bool, VerificationError>(VerificationError::InvalidChunkIndex) && final(self)@ == old(self)@,
            old(self)@.contains_key(transfer_id) && chunk_index < old(self)@[transfer_id].chunks_verified.len() ==> r == Ok::<bool, VerificationError>(true)
                && exists|t: Timestamp| final(self)@ == old(self)@.insert(transfer_id, chunk_marked(old(self)@[transfer_id], chunk_index as int, t)),
    {
        let t = now();
        self.verify_chunk_at(transfer_id, chunk_index, chunk_data, t)
    }

    /// Marks chunk `chunk_index` of a transfer verified at time `now`. An
    /// unknown transfer or an index past the last chunk is an error and
    /// changes nothing.
    pub fn verify_chunk_at(&mut self, transfer_id: Id, chunk_index: usize, chunk_data: &[u8], now: Timestamp) -> (r: Result<bool, VerificationError>)
        ensures
            !old(self)@.contains_key(transfer_id) ==> r == Err::<bool, VerificationError>(VerificationError::TransferNotFound) && final(self)@ == old(self)@,
            old(self)@.contains_key(transfer_id) && chunk_index >= old(self)@[transfer_id].chunks_verified.len() ==> r == Err::<bool, VerificationError>(VerificationError::InvalidChunkIndex) && final(self)@ == old(self)@,
            old(self)@.contains_key(transfer_id) && chunk_index < old(self)@[transfer_id].chunks_verified.len() ==> r == Ok::<bool, VerificationError>(true)
                && final(self)@ == old(self)@.insert(transfer_id, chunk_marked(old(self)@[transfer_id], chunk_index as int, now)),
    {
        let updated = match self.transfers.get(&transfer_id) {
            None => return Err(VerificationError::TransferNotFound),
            Some(v) => {
                if chunk_index >= v.chunks_verified.len() {
                    return Err(VerificationError::InvalidChunkIndex);
                }
                let _chunk_checksum = sha256_hex(chunk_data);
                let mut chunks = v.chunks_verified.clone();
                chunks.set(chunk_index, true);
                TransferVerification {
                    file_size: v.file_size,
                    checksum: v.checksum.clone(),
                    chunks_verified: chunks,
                    last_verified: now,
                }
            },
        };
        self.transfers.insert(transfer_id, updated);
        assert(self@ =~= old(self)@.insert(transfer_id, chunk_marked(old(self)@[transfer_id], chunk_index as int, now)));
        Ok(true)
    }

    /// Whether a transfer verifies: all its chunks are verified and
    /// `final_checksum` equals the recorded checksum. An unknown transfer is
    /// an error.
    pub fn verify_complete(&self, transfer_id: Id, final_checksum: &str) -> (r: Result<bool, VerificationError>)
        ensures
            match r {
                Ok(b) => self@.contains_key(transfer_id) && b == verifies(self@[transfer_id], final_checksum@),
                Err(e) => !self@.contains_key(transfer_id) && e == VerificationError::TransferNotFound,
            },
    {
        match self.transfers.get(&transfer_id) {
            None => Err(VerificationError::TransferNotFound),
            Some(v) => {
                let mut all = true;
                let mut i: usize = 0;
                while i < v.chunks_verified.len()
                    invariant
                        i <= v.chunks_verified@.len(),
                        all == (forall|j: int| 0 <= j < i ==> v.chunks_verified@[j]),
                    decreases v.chunks_verified@.len() - i,
                {
                    all = all && v.chunks_verified[i];
                    i = i + 1;
                }
                let matches = v.checksum.clone() == final_checksum.to_owned();
                Ok(all && matches)
            },
        }
    }

    /// Drops, at the current time, every verification idle for an hour or
    /// more.
    pub fn cleanup_expired(&mut self) -> (r: Result<(), VerificationError>)
        ensures
            r is Ok,
            exists|t: Timestamp| final(self)@ == kept_verifications(old(self)@, t),
    {
        let t = now();
        self.cleanup_expired_at(t)
    }

    /// Drops every verification whose last activity is an hour or more
    /// before `now`, or after it.
    pub fn cleanup_expired_at(&mut self, now: Timestamp) -> (r: Result<(), VerificationError>)
        ensures
            r is Ok,
            final(self)@ == kept_verifications(old(self)@, now),
    {
        let ghost before = self.transfers@;
        let keys = map_keys(&self.transfers);
        let mut i: usize = 0;
        while i < keys.len()
            invariant
                i <= keys@.len(),
                keys@.no_duplicates(),
                forall|j: int| 0 <= j < keys@.len() ==> before.contains_key(#[trigger] keys@[j]),
                forall|k: Id| before.contains_key(k) ==> keys@.contains(k),
                forall|k: Id| #[trigger] self.transfers@.contains_key(k) <==> before.contains_key(k)
                    && (!keys@.take(i as int).contains(k) || younger_than(before[k].last_verified, now, VERIFICATION_MAX_AGE)),
                forall|k: Id| #[trigger] self.transfers@.contains_key(k) ==> self.transfers@[k] == before[k],
            decreases keys@.len() - i,
        {
            let k = keys[i];
            let stale = match self.transfers.get(&k) {
                Some(v) => !is_younger_than(v.last_verified, now, VERIFICATION_MAX_AGE),
                None => false,
            };
            if stale {
                self.transfers.remove(&k);
            }
            proof { lemma_take_one_more(keys@, i as int); }
            i = i + 1;
        }
        assert(keys@.take(i as int) == keys@);
        assert(self@ =~= kept_verifications(old(self)@, now));
        Ok(())
    }
}

/// A verification with chunk `i` marked verified at `now`.
pub open spec fn chunk_marked(v: VerificationView, i: int, now: Timestamp) -> VerificationView {
    VerificationView { chunks_verified: v.chunks_verified.update(i, true), last_verified: now, ..v }
}

/// The verifications still active at `now`.
pub open spec fn kept_verifications(m: Map<Id, VerificationView>, now: Timestamp) -> Map<Id, VerificationView> {
    m.restrict(m.dom().filter(|k: Id| younger_than(m[k].last_verified, now, VERIFICATION_MAX_AGE)))
}

/// A verification after chunks `idxs` were marked one after another at `t`.
pub open spec fn marked_in_order(v: VerificationView, idxs: Seq<int>, t: Timestamp) -> VerificationView
    decreases idxs.len(),
{
    if idxs.len() == 0 {
        v
    } else {
        chunk_marked(marked_in_order(v, idxs.drop_last(), t), idxs.last(), t)
    }
}

impl Default for VerificationManager {
    fn default() -> (m: Self)
        ensures
            m@ == Map::<Id, VerificationView>::empty(),
    {
        VerificationManager::new()
    }
}

/// Marking chunks keeps the size, the checksum and the number of chunks,
/// and a chunk is verified afterwards exactly where it was before or was
/// marked.
pub proof fn law_marking_accumulates(v: VerificationView, idxs: Seq<int>, t: Timestamp)
    requires
        forall|k: int| 0 <= k < idxs.len() ==> 0 <= #[trigger] idxs[k] < v.chunks_verified.len(),
    ensures
        marked_in_order(v, idxs, t).file_size == v.file_size,
        marked_in_order(v, idxs, t).checksum == v.checksum,
        marked_in_order(v, idxs, t).chunks_verified.len() == v.chunks_verified.len(),
        forall|j: int| 0 <= j < v.chunks_verified.len() ==> #[trigger] marked_in_order(v, idxs, t).chunks_verified[j]
            == (v.chunks_verified[j] || idxs.contains(j)),
    decreases idxs.len(),
{
    if idxs.len() > 0 {
        assert forall|k: int| 0 <= k < idxs.drop_last().len() implies 0 <= #[trigger] idxs.drop_last()[k] < v.chunks_verified.len() by {
            assert(idxs.drop_last()[k] == idxs[k]);
        }
        law_marking_accumulates(v, idxs.drop_last(), t);
        assert(0 <= idxs[idxs.len() - 1] < v.chunks_verified.len());
        assert forall|j: int| 0 <= j < v.chunks_verified.len() implies #[trigger] marked_in_order(v, idxs, t).chunks_verified[j]
            == (v.chunks_verified[j] || idxs.contains(j)) by {
            assert(idxs =~= idxs.drop_last().push(idxs.last()));
            if idxs.drop_last().contains(j) {
                let w = choose|w: int| 0 <= w < idxs.drop_last().len() && idxs.drop_last()[w] == j;
                assert(idxs[w] == j);
            }
            if idxs.contains(j) && j != idxs.last() {
                let w = choose|w: int| 0 <= w < idxs.len() && idxs[w] == j;
                assert(idxs.drop_last()[w] == j);
            }
        }
    }
}

/// A transfer whose every chunk was verified, in any order, verifies
/// against the checksum it was started with, and against no other.
pub proof fn law_all_chunks_then_complete(file_size: u64, checksum: Seq<char>, now: Timestamp, idxs: Seq<int>, t: Timestamp, other: Seq<char>)
    requires
        forall|k: int| 0 <= k < idxs.len() ==> 0 <= #[trigger] idxs[k] < fresh_verification(file_size, checksum, now).chunks_verified.len(),
        forall|j: int| 0 <= j < fresh_verification(file_size, checksum, now).chunks_verified.len() ==> idxs.contains(j),
        other != checksum,
    ensures
        verifies(marked_in_order(fresh_verification(file_size, checksum, now), idxs, t), checksum),
        !verifies(marked_in_order(fresh_verification(file_size, checksum, now), idxs, t), other),
{
    law_marking_accumulates(fresh_verification(file_size, checksum, now), idxs, t);
}

/// A transfer with a chunk never verified does not verify.
pub proof fn law_missing_chunk_fails(v: VerificationView, idxs: Seq<int>, t: Timestamp, missing: int, checksum: Seq<char>)
    requires
        forall|k: int| 0 <= k < idxs.len() ==> 0 <= #[trigger] idxs[k] < v.chunks_verified.len(),
        0 <= missing < v.chunks_verified.len(),
        !v.chunks_verified[missing],
        !idxs.contains(missing),
    ensures
        !verifies(marked_in_order(v, idxs, t), checksum),
{
    law_marking_accumulates(v, idxs, t);
    assert(!marked_in_order(v, idxs, t).chunks_verified[missing]);
}

} // verus!
