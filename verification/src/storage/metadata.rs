use vstd::prelude::*;
use std::collections::HashMap;

use crate::clock::{is_younger_than, now, younger_than, Timestamp, NANOS_PER_SEC};
use crate::ids::Id;
use crate::keys::{lemma_take_one_more, map_keys};

verus! {

broadcast use vstd::std_specs::hash::group_hash_axioms;

/// How long metadata is kept after the file was last modified: one hour.
pub const METADATA_MAX_AGE: u64 = 3600 * NANOS_PER_SEC;

/// Errors of the metadata store.
#[derive(Debug, Clone, Copy, PartialEq, Eq, Structural)]
pub enum MetadataError {
    /// No metadata is stored for the file.
    FileNotFound,
}

/// Metadata of a shared file.
#[derive(Debug, Clone)]
pub struct FileMetadata {
    pub file_name: String,
    pub file_size: u64,
    pub checksum: String,
    pub created_at: Timestamp,
    pub modified_at: Timestamp,
    pub permissions: u32,
    pub shared_with: Vec<Id>,
}

/// File metadata as values.
pub struct MetadataView {
    pub file_name: Seq<char>,
    pub file_size: u64,
    pub checksum: Seq<char>,
    pub created_at: Timestamp,
    pub modified_at: Timestamp,
    pub permissions: u32,
    pub shared_with: Seq<Id>,
}

impl FileMetadata {
    pub open spec fn spec_view(&self) -> MetadataView {
        MetadataView {
            file_name: self.file_name@,
            file_size: self.file_size,
            checksum: self.checksum@,
            created_at: self.created_at,
            modified_at: self.modified_at,
            permissions: self.permissions,
            shared_with: self.shared_with@,
        }
    }

    /// A copy of this metadata.
    pub fn duplicate(&self) -> (r: Self)
        ensures
            r.spec_view() == self.spec_view(),
    {
        FileMetadata {
            file_name: self.file_name.clone(),
            file_size: self.file_size,
            checksum: self.checksum.clone(),
            created_at: self.created_at,
            modified_at: self.modified_at,
            permissions: self.permissions,
            shared_with: self.shared_with.clone(),
        }
    }
}

/// The metadata of files modified within an hour of `now`.
pub open spec fn kept_metadata(m: Map<Id, MetadataView>, now: Timestamp) -> Map<Id, MetadataView> {
    m.restrict(m.dom().filter(|k: Id| younger_than(m[k].modified_at, now, METADATA_MAX_AGE)))
}

/// Metadata of files, by file id.
pub struct MetadataManager {
    metadata: HashMap<Id, FileMetadata>,
}

impl View for MetadataManager {
    type V = Map<Id, MetadataView>;

    closed spec fn view(&self) -> Map<Id, MetadataView> {
        self.metadata@.map_values(|m: FileMetadata| m.spec_view())
    }
}

impl MetadataManager {
    /// A store with no metadata.
    pub fn new() -> (m: Self)
        ensures
            m@ == Map::<Id, MetadataView>::empty(),
    {
        let m = MetadataManager { metadata: HashMap::new() };
        assert(m@ =~= Map::<Id, MetadataView>::empty());
        m
    }

    /// Stores a file's metadata, replacing any stored before.
    pub fn add_metadata(&mut self, file_id: Id, metadata: FileMetadata) -> (r: Result<(), MetadataError>)
        ensures
            r is Ok,
            final(self)@ == old(self)@.insert(file_id, metadata.spec_view()),
    {
        let ghost v = metadata.spec_view();
        self.metadata.insert(file_id, metadata);
        assert(self@ =~= old(self)@.insert(file_id, v));
        Ok(())
    }

    /// A copy of a file's metadata, if stored.
    pub fn get_metadata(&self, file_id: Id) -> (r: Option<FileMetadata>)
        ensures
            match r {
                Some(m) => self@.contains_key(file_id) && m.spec_view() == self@[file_id],
                None => !self@.contains_key(file_id),
            },
    {
        match self.metadata.get(&file_id) {
            Some(m) => Some(m.duplicate()),
            None => None,
        }
    }

    /// Replaces a file's stored metadata; a file with none stored is an
    /// error and nothing changes.
    pub fn update_metadata(&mut self, file_id: Id, metadata: FileMetadata) -> (r: Result<(), MetadataError>)
        ensures
            old(self)@.contains_key(file_id) ==> r is Ok && final(self)@ == old(self)@.insert(file_id, metadata.spec_view()),
            !old(self)@.contains_key(file_id) ==> r == Err::<(), MetadataError>(MetadataError::FileNotFound) && final(self)@ == old(self)@,
    {
        if self.metadata.contains_key(&file_id) {
            let ghost v = metadata.spec_view();
            self.metadata.insert(file_id, metadata);
            assert(self@ =~= old(self)@.insert(file_id, v));
            Ok(())
        } else {
            Err(MetadataError::FileNotFound)
        }
    }

    /// Removes a file's metadata; a file with none stored is an error.
    pub fn remove_metadata(&mut self, file_id: Id) -> (r: Result<(), MetadataError>)
        ensures
            final(self)@ == old(self)@.remove(file_id),
            r is Ok <==> old(self)@.contains_key(file_id),
            r matches Err(e) ==> e == MetadataError::FileNotFound,
    {
        let removed = self.metadata.remove(&file_id);
        assert(self@ =~= old(self)@.remove(file_id));
        if removed.is_some() {
            Ok(())
        } else {
            Err(MetadataError::FileNotFound)
        }
    }

    /// Drops, at the current time, the metadata of files not modified in
    /// the last hour.
    pub fn cleanup_expired(&mut self) -> (r: Result<(), MetadataError>)
        ensures
            r is Ok,
            exists|t: Timestamp| final(self)@ == kept_metadata(old(self)@, t),
    {
        let t = now();
        self.cleanup_expired_at(t)
    }

    /// Drops the metadata of files last modified an hour or more before
    /// `now`, or after it.
    pub fn cleanup_expired_at(&mut self, now: Timestamp) -> (r: Result<(), MetadataError>)
        ensures
            r is Ok,
            final(self)@ == kept_metadata(old(self)@, now),
    {
        let ghost before = self.metadata@;
        let keys = map_keys(&self.metadata);
        let mut i: usize = 0;
        while i < keys.len()
            invariant
                i <= keys@.len(),
                forall|j: int| 0 <= j < keys@.len() ==> before.contains_key(#[trigger] keys@[j]),
                forall|k: Id| before.contains_key(k) ==> keys@.contains(k),
                forall|k: Id| #[trigger] self.metadata@.contains_key(k) <==> before.contains_key(k)
                    && (!keys@.take(i as int).contains(k) || younger_than(before[k].modified_at, now, METADATA_MAX_AGE)),
                forall|k: Id| #[trigger] self.metadata@.contains_key(k) ==> self.metadata@[k] == before[k],
            decreases keys@.len() - i,
        {
            let k = keys[i];
            let stale = match self.metadata.get(&k) {
                Some(v) => !is_younger_than(v.modified_at, now, METADATA_MAX_AGE),
                None => false,
            };
            if stale {
                self.metadata.remove(&k);
            }
            proof { lemma_take_one_more(keys@, i as int); }
            i = i + 1;
        }
        assert(keys@.take(i as int) == keys@);
        assert(self@ =~= kept_metadata(old(self)@, now));
        Ok(())
    }
}

impl Default for MetadataManager {
    fn default() -> (m: Self)
        ensures
            m@ == Map::<Id, MetadataView>::empty(),
    {
        MetadataManager::new()
    }
}

/// Metadata read back after it was stored is what was stored; after it was
/// removed, none is found; an update of a file never stored stores nothing.
pub proof fn law_metadata_store(m: Map<Id, MetadataView>, id: Id, v: MetadataView)
    ensures
        m.insert(id, v)[id] == v,
        !m.remove(id).contains_key(id),
        m.insert(id, v).remove(id) == m.remove(id),
{
    assert(m.insert(id, v).remove(id) =~= m.remove(id));
}

} // verus!
