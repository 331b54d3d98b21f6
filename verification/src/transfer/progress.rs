use vstd::prelude::*;
use std::collections::HashMap;

use crate::ids::Id;

verus! {

broadcast use vstd::std_specs::hash::group_hash_axioms;

/// State of a transfer.
#[derive(Debug, Clone, PartialEq, Eq)]
pub enum TransferStatus {
    InProgress,
    Completed,
    /// The transfer failed with this message.
    Failed(String),
}

impl TransferStatus {
    /// A copy of this status.
    pub fn duplicate(&self) -> (r: Self)
        ensures
            r == *self,
    {
        match self {
            TransferStatus::InProgress => TransferStatus::InProgress,
            TransferStatus::Completed => TransferStatus::Completed,
            TransferStatus::Failed(e) => TransferStatus::Failed(e.clone()),
        }
    }
}

/// Progress of one transfer.
#[derive(Debug, Clone)]
pub struct TransferProgress {
    pub file_name: String,
    pub file_size: u64,
    pub transferred_bytes: u64,
    pub status: TransferStatus,
}

impl TransferProgress {
    /// A copy of this record.
    pub fn duplicate(&self) -> (r: Self)
        ensures
            r == *self,
    {
        TransferProgress {
            file_name: self.file_name.clone(),
            file_size: self.file_size,
            transferred_bytes: self.transferred_bytes,
            status: self.status.duplicate(),
        }
    }
}

/// The record a transfer starts with: nothing transferred, in progress.
pub open spec fn started(file_name: String, file_size: u64) -> TransferProgress {
    TransferProgress { file_name, file_size, transferred_bytes: 0, status: TransferStatus::InProgress }
}

/// The transfers after a start: the record for `id` is (re)set.
pub open spec fn spec_start(m: Map<Id, TransferProgress>, id: Id, file_name: String, file_size: u64) -> Map<Id, TransferProgress> {
    m.insert(id, started(file_name, file_size))
}

/// The transfers after a progress update: a known transfer's byte count is set.
pub open spec fn spec_update(m: Map<Id, TransferProgress>, id: Id, bytes: u64) -> Map<Id, TransferProgress> {
    if m.contains_key(id) {
        m.insert(id, TransferProgress { transferred_bytes: bytes, ..m[id] })
    } else {
        m
    }
}

/// The transfers after a completion: a known transfer is completed and
/// counts all of its bytes as transferred.
pub open spec fn spec_complete(m: Map<Id, TransferProgress>, id: Id) -> Map<Id, TransferProgress> {
    if m.contains_key(id) {
        m.insert(id, TransferProgress { transferred_bytes: m[id].file_size, status: TransferStatus::Completed, ..m[id] })
    } else {
        m
    }
}

/// The transfers after a failure: a known transfer is failed with the message.
pub open spec fn spec_fail(m: Map<Id, TransferProgress>, id: Id, error: String) -> Map<Id, TransferProgress> {
    if m.contains_key(id) {
        m.insert(id, TransferProgress { status: TransferStatus::Failed(error), ..m[id] })
    } else {
        m
    }
}

/// Tracks the progress of transfers by id.
pub struct ProgressTracker {
    transfers: HashMap<Id, TransferProgress>,
}

impl View for ProgressTracker {
    type V = Map<Id, TransferProgress>;

    closed spec fn view(&self) -> Map<Id, TransferProgress> {
        self.transfers@
    }
}

impl ProgressTracker {
    /// A tracker with no transfers.
    pub fn new() -> (t: Self)
        ensures
            t@ == Map::<Id, TransferProgress>::empty(),
    {
        ProgressTracker { transfers: HashMap::new() }
    }

    /// Starts tracking a transfer: in progress, nothing transferred. A
    /// transfer already tracked under the id is replaced.
    pub fn start_transfer(&mut self, transfer_id: Id, file_name: String, file_size: u64)
        ensures
            final(self)@ == spec_start(old(self)@, transfer_id, file_name, file_size),
    {
        self.transfers.insert(
            transfer_id,
            TransferProgress {
                file_name,
                file_size,
                transferred_bytes: 0,
                status: TransferStatus::InProgress,
            },
        );
    }

    /// Sets the number of bytes transferred so far; an unknown id is ignored.
    pub fn update_progress(&mut self, transfer_id: Id, transferred_bytes: u64)
        ensures
            final(self)@ == spec_update(old(self)@, transfer_id, transferred_bytes),
    {
        let updated = match self.transfers.get(&transfer_id) {
            Some(p) => {
                let mut q = p.duplicate();
                q.transferred_bytes = transferred_bytes;
                Some(q)
            },
            None => None,
        };
        if let Some(q) = updated {
            self.transfers.insert(transfer_id, q);
        }
    }

    /// Marks a transfer completed, with all of its bytes transferred; an
    /// unknown id is ignored.
    pub fn complete_transfer(&mut self, transfer_id: Id)
        ensures
            final(self)@ == spec_complete(old(self)@, transfer_id),
    {
        let updated = match self.transfers.get(&transfer_id) {
            Some(p) => {
                let mut q = p.duplicate();
                q.status = TransferStatus::Completed;
                q.transferred_bytes = q.file_size;
                Some(q)
            },
            None => None,
        };
        if let Some(q) = updated {
            self.transfers.insert(transfer_id, q);
        }
    }

    /// Marks a transfer failed with the given message; an unknown id is
    /// ignored.
    pub fn fail_transfer(&mut self, transfer_id: Id, error: String)
        ensures
            final(self)@ == spec_fail(old(self)@, transfer_id, error),
    {
        let updated = match self.transfers.get(&transfer_id) {
            Some(p) => {
                let mut q = p.duplicate();
                q.status = TransferStatus::Failed(error);
                Some(q)
            },
            None => None,
        };
        if let Some(q) = updated {
            self.transfers.insert(transfer_id, q);
        }
    }

    /// A copy of a transfer's progress, if it is tracked.
    pub fn get_progress(&self, transfer_id: Id) -> (r: Option<TransferProgress>)
        ensures
            r == (if self@.contains_key(transfer_id) {
                Some(self@[transfer_id])
            } else {
                None
            }),
    {
        match self.transfers.get(&transfer_id) {
            Some(p) => Some(p.duplicate()),
            None => None,
        }
    }

    /// Stops tracking a transfer.
    pub fn cleanup(&mut self, transfer_id: Id)
        ensures
            final(self)@ == old(self)@.remove(transfer_id),
    {
        self.transfers.remove(&transfer_id);
    }

    /// Starts tracking a transfer, as [`ProgressTracker::start_transfer`].
    pub fn create_transfer(&mut self, transfer_id: Id, file_name: String, file_size: u64)
        ensures
            final(self)@ == spec_start(old(self)@, transfer_id, file_name, file_size),
    {
        self.start_transfer(transfer_id, file_name, file_size);
    }
}

impl Default for ProgressTracker {
    fn default() -> (t: Self)
        ensures
            t@ == Map::<Id, TransferProgress>::empty(),
    {
        ProgressTracker::new()
    }
}

/// A started transfer reads back as in progress with nothing transferred.
pub proof fn law_start_then_get(m: Map<Id, TransferProgress>, id: Id, file_name: String, file_size: u64)
    ensures
        spec_start(m, id, file_name, file_size).contains_key(id),
        spec_start(m, id, file_name, file_size)[id] == started(file_name, file_size),
{
}

/// A completed transfer reads back as completed, with its whole size
/// transferred, whatever progress was reported before.
pub proof fn law_complete_counts_whole_file(m: Map<Id, TransferProgress>, id: Id, bytes: u64)
    requires
        m.contains_key(id),
    ensures
        spec_complete(spec_update(m, id, bytes), id)[id].status == TransferStatus::Completed,
        spec_complete(spec_update(m, id, bytes), id)[id].transferred_bytes == m[id].file_size,
        spec_complete(spec_update(m, id, bytes), id)[id].file_name == m[id].file_name,
{
}

/// Updates, completions and failures of an unknown transfer change nothing;
/// none of them touches another transfer's record.
pub proof fn law_updates_are_local(m: Map<Id, TransferProgress>, id: Id, other: Id, bytes: u64, error: String)
    requires
        other != id,
    ensures
        !m.contains_key(id) ==> spec_update(m, id, bytes) == m && spec_complete(m, id) == m && spec_fail(m, id, error) == m,
        spec_update(m, id, bytes).contains_key(other) == m.contains_key(other),
        m.contains_key(other) ==> spec_update(m, id, bytes)[other] == m[other]
            && spec_complete(m, id)[other] == m[other]
            && spec_fail(m, id, error)[other] == m[other],
{
}

} // verus!
