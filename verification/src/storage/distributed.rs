use vstd::prelude::*;
use std::collections::{HashMap, HashSet};

use crate::clock::{is_older_than, now, older_than, Timestamp};
use crate::ids::Id;
use crate::keys::{copy_set, lemma_take_one_more, lemma_take_one_more_set, map_keys, set_items};

verus! {

broadcast use vstd::std_specs::hash::group_hash_axioms;

/// Errors of the distributed resource tracker.
#[derive(Debug, Clone, Copy, PartialEq, Eq, Structural)]
pub enum DistributedError {
    /// No resource is tracked under the id.
    ResourceNotFound,
}

/// A resource as the network knows it: its owner, its replicas, and when
/// it was last updated.
#[derive(Debug)]
pub struct SharedResourceInfo {
    pub resource_id: Id,
    pub owner_id: Id,
    pub path: String,
    pub is_directory: bool,
    pub size: u64,
    pub last_updated: Timestamp,
    pub replicas: HashSet<Id>,
}

/// A tracked resource as values.
pub struct InfoView {
    pub resource_id: Id,
    pub owner_id: Id,
    pub path: Seq<char>,
    pub is_directory: bool,
    pub size: u64,
    pub last_updated: Timestamp,
    pub replicas: Set<Id>,
}

impl SharedResourceInfo {
    pub open spec fn spec_view(&self) -> InfoView {
        InfoView {
            resource_id: self.resource_id,
            owner_id: self.owner_id,
            path: self.path@,
            is_directory: self.is_directory,
            size: self.size,
            last_updated: self.last_updated,
            replicas: self.replicas@,
        }
    }

    /// A copy of this record.
    pub fn duplicate(&self) -> (r: Self)
        ensures
            r.spec_view() == self.spec_view(),
    {
        SharedResourceInfo {
            resource_id: self.resource_id,
            owner_id: self.owner_id,
            path: self.path.clone(),
            is_directory: self.is_directory,
            size: self.size,
            last_updated: self.last_updated,
            replicas: copy_set(&self.replicas),
        }
    }
}

/// The peers that hold a resource: its owner and its replicas.
pub open spec fn holders(info: InfoView) -> Set<Id> {
    info.replicas.insert(info.owner_id)
}

/// The resources indexed under a peer (none where it has no entry).
pub open spec fn indexed(idx: Map<Id, Set<Id>>, peer: Id) -> Set<Id> {
    if idx.contains_key(peer) {
        idx[peer]
    } else {
        Set::empty()
    }
}

/// The index after listing resource `rid` under each of `peers`.
pub open spec fn index_with(idx: Map<Id, Set<Id>>, peers: Set<Id>, rid: Id) -> Map<Id, Set<Id>> {
    Map::new(
        |p: Id| idx.contains_key(p) || peers.contains(p),
        |p: Id| if peers.contains(p) { indexed(idx, p).insert(rid) } else { idx[p] },
    )
}

/// The index after striking resource `rid` from the entries of `peers`
/// (peers without an entry keep none).
pub open spec fn index_without(idx: Map<Id, Set<Id>>, peers: Set<Id>, rid: Id) -> Map<Id, Set<Id>> {
    Map::new(
        |p: Id| idx.contains_key(p),
        |p: Id| if peers.contains(p) { idx[p].remove(rid) } else { idx[p] },
    )
}

/// The index after striking every resource of `gone` from the entries of
/// the peers that held it, as `res` records them.
pub open spec fn index_without_all(idx: Map<Id, Set<Id>>, res: Map<Id, InfoView>, gone: Set<Id>) -> Map<Id, Set<Id>> {
    Map::new(
        |p: Id| idx.contains_key(p),
        |p: Id| idx[p].filter(|r: Id| !(gone.contains(r) && res.contains_key(r) && holders(res[r]).contains(p))),
    )
}

/// The resources that are older than `max_age` at `now`.
pub open spec fn expired_ids(res: Map<Id, InfoView>, now: Timestamp, max_age: u64) -> Set<Id> {
    res.dom().filter(|r: Id| older_than(res[r].last_updated, now, max_age))
}

/// Whether every tracked resource is listed under its owner.
pub open spec fn owners_indexed(res: Map<Id, InfoView>, idx: Map<Id, Set<Id>>) -> bool {
    forall|r: Id| #[trigger] res.contains_key(r) ==> indexed(idx, res[r].owner_id).contains(r)
}

/// The resources listed under a peer that are still tracked.
pub open spec fn peer_listing(res: Map<Id, InfoView>, idx: Map<Id, Set<Id>>, peer: Id) -> Set<Id> {
    indexed(idx, peer).filter(|r: Id| res.contains_key(r))
}

/// Tracks resources shared across peers, and which peers hold each.
pub struct DistributedTracker {
    resources: HashMap<Id, SharedResourceInfo>,
    peer_resources: HashMap<Id, HashSet<Id>>,
}

impl DistributedTracker {
    /// The tracked resources.
    pub closed spec fn resources_view(&self) -> Map<Id, InfoView> {
        self.resources@.map_values(|i: SharedResourceInfo| i.spec_view())
    }

    /// The resources listed under each peer.
    pub closed spec fn index_view(&self) -> Map<Id, Set<Id>> {
        self.peer_resources@.map_values(|s: HashSet<Id>| s@)
    }

    /// A tracker with no resources.
    pub fn new() -> (t: Self)
        ensures
            t.resources_view() == Map::<Id, InfoView>::empty(),
            t.index_view() == Map::<Id, Set<Id>>::empty(),
    {
        let t = DistributedTracker { resources: HashMap::new(), peer_resources: HashMap::new() };
        assert(t.resources_view() =~= Map::<Id, InfoView>::empty());
        assert(t.index_view() =~= Map::<Id, Set<Id>>::empty());
        t
    }

    fn index_insert(&mut self, peer: Id, rid: Id)
        ensures
            final(self).resources_view() == old(self).resources_view(),
            final(self).index_view() == index_with(old(self).index_view(), set![peer], rid),
    {
        let mut set = match self.peer_resources.remove(&peer) {
            Some(s) => s,
            None => HashSet::new(),
        };
        set.insert(rid);
        self.peer_resources.insert(peer, set);
        assert(self.index_view() =~= index_with(old(self).index_view(), set![peer], rid));
        assert(self.resources_view() =~= old(self).resources_view());
    }

    fn index_remove(&mut self, peer: Id, rid: Id)
        ensures
            final(self).resources_view() == old(self).resources_view(),
            final(self).index_view() == index_without(old(self).index_view(), set![peer], rid),
    {
        if let Some(mut set) = self.peer_resources.remove(&peer) {
            set.remove(&rid);
            self.peer_resources.insert(peer, set);
        }
        assert(self.index_view() =~= index_without(old(self).index_view(), set![peer], rid));
        assert(self.resources_view() =~= old(self).resources_view());
    }

    /// Tracks a resource, replacing any tracked under its id, and lists it
    /// under its owner and under each replica.
    pub fn add_resource(&mut self, info: SharedResourceInfo)
        ensures
            final(self).resources_view() == old(self).resources_view().insert(info.resource_id, info.spec_view()),
            final(self).index_view() == index_with(old(self).index_view(), holders(info.spec_view()), info.resource_id),
    {
        let rid = info.resource_id;
        let owner = info.owner_id;
        let replicas = set_items(&info.replicas);
        let ghost v = info.spec_view();
        let ghost idx0 = self.index_view();
        self.resources.insert(rid, info);
        assert(self.resources_view() =~= old(self).resources_view().insert(rid, v));
        self.index_insert(owner, rid);
        assert(replicas@.take(0).to_set().insert(owner) =~= set![owner]);
        let mut i: usize = 0;
        while i < replicas.len()
            invariant
                i <= replicas@.len(),
                self.resources_view() == old(self).resources_view().insert(rid, v),
                self.index_view() == index_with(idx0, replicas@.take(i as int).to_set().insert(owner), rid),
            decreases replicas@.len() - i,
        {
            let p = replicas[i];
            self.index_insert(p, rid);
            proof {
                lemma_take_one_more_set(replicas@, i as int);
                lemma_index_with_step(idx0, replicas@.take(i as int).to_set().insert(owner), p, rid);
                assert(replicas@.take(i as int).to_set().insert(owner).insert(p) =~= replicas@.take(i + 1).to_set().insert(owner));
            }
            i = i + 1;
        }
        assert(replicas@.take(i as int) == replicas@);
        assert(replicas@.to_set().insert(owner) =~= holders(v));
    }

    /// Updates a tracked resource's path, kind, size and replicas, and
    /// stamps it with the current time; its owner stays. The listing of
    /// peers is left as it was. An unknown resource is an error.
    pub fn update_resource(&mut self, resource_id: Id, updates: SharedResourceInfo) -> (r: Result<(), DistributedError>)
        ensures
            old(self).resources_view().contains_key(resource_id) ==> r is Ok
                && final(self).resources_view() == old(self).resources_view().insert(resource_id, InfoView {
                    path: updates.path@,
                    is_directory: updates.is_directory,
                    size: updates.size,
                    last_updated: final(self).resources_view()[resource_id].last_updated,
                    replicas: updates.replicas@,
                    ..old(self).resources_view()[resource_id]
                }),
            !old(self).resources_view().contains_key(resource_id) ==> r == Err::<(), DistributedError>(DistributedError::ResourceNotFound)
                && final(self).resources_view() == old(self).resources_view(),
            final(self).index_view() == old(self).index_view(),
    {
        let t = now();
        self.update_resource_at(resource_id, updates, t)
    }

    /// As [`DistributedTracker::update_resource`], stamped with `now`.
    pub fn update_resource_at(&mut self, resource_id: Id, updates: SharedResourceInfo, now: Timestamp) -> (r: Result<(), DistributedError>)
        ensures
            old(self).resources_view().contains_key(resource_id) ==> r is Ok
                && final(self).resources_view() == old(self).resources_view().insert(resource_id, InfoView {
                    path: updates.path@,
                    is_directory: updates.is_directory,
                    size: updates.size,
                    last_updated: now,
                    replicas: updates.replicas@,
                    ..old(self).resources_view()[resource_id]
                }),
            !old(self).resources_view().contains_key(resource_id) ==> r == Err::<(), DistributedError>(DistributedError::ResourceNotFound)
                && final(self).resources_view() == old(self).resources_view(),
            final(self).index_view() == old(self).index_view(),
    {
        let updated = match self.resources.get(&resource_id) {
            Some(existing) => SharedResourceInfo {
                resource_id: existing.resource_id,
                owner_id: existing.owner_id,
                path: updates.path,
                is_directory: updates.is_directory,
                size: updates.size,
                last_updated: now,
                replicas: updates.replicas,
            },
            None => return Err(DistributedError::ResourceNotFound),
        };
        let ghost v = updated.spec_view();
        self.resources.insert(resource_id, updated);
        assert(self.resources_view() =~= old(self).resources_view().insert(resource_id, v));
        assert(self.index_view() =~= old(self).index_view());
        Ok(())
    }

    /// Stops tracking a resource and strikes it from the listings of its
    /// owner and replicas. An unknown resource changes nothing.
    pub fn remove_resource(&mut self, resource_id: Id)
        ensures
            final(self).resources_view() == old(self).resources_view().remove(resource_id),
            old(self).resources_view().contains_key(resource_id) ==> final(self).index_view()
                == index_without(old(self).index_view(), holders(old(self).resources_view()[resource_id]), resource_id),
            !old(self).resources_view().contains_key(resource_id) ==> final(self).index_view() == old(self).index_view(),
    {
        let removed = self.resources.remove(&resource_id);
        assert(self.resources_view() =~= old(self).resources_view().remove(resource_id));
        assert(self.index_view() == old(self).index_view());
        match removed {
            Some(info) => {
                assert(info.spec_view() == old(self).resources_view()[resource_id]);
                let ghost idx1 = self.index_view();
                self.strike(&info, resource_id);
            },
            None => {
                assert(!old(self).resources_view().contains_key(resource_id));
            },
        }
    }

    /// Strikes a resource from the listings of its owner and replicas.
    fn strike(&mut self, info: &SharedResourceInfo, rid: Id)
        ensures
            final(self).resources_view() == old(self).resources_view(),
            final(self).index_view() == index_without(old(self).index_view(), holders(info.spec_view()), rid),
    {
        let ghost idx0 = self.index_view();
        self.index_remove(info.owner_id, rid);
        let replicas = set_items(&info.replicas);
        assert(replicas@.take(0).to_set().insert(info.owner_id) =~= set![info.owner_id]);
        let mut i: usize = 0;
        while i < replicas.len()
            invariant
                i <= replicas@.len(),
                self.resources_view() == old(self).resources_view(),
                self.index_view() == index_without(idx0, replicas@.take(i as int).to_set().insert(info.owner_id), rid),
            decreases replicas@.len() - i,
        {
            let p = replicas[i];
            self.index_remove(p, rid);
            proof {
                lemma_take_one_more_set(replicas@, i as int);
                lemma_index_without_step(idx0, replicas@.take(i as int).to_set().insert(info.owner_id), p, rid);
                assert(replicas@.take(i as int).to_set().insert(info.owner_id).insert(p) =~= replicas@.take(i + 1).to_set().insert(info.owner_id));
            }
            i = i + 1;
        }
        assert(replicas@.take(i as int) == replicas@);
        assert(replicas@.to_set().insert(info.owner_id) =~= holders(info.spec_view()));
    }

    /// A copy of a tracked resource, if any.
    pub fn get_resource(&self, resource_id: Id) -> (r: Option<SharedResourceInfo>)
        ensures
            match r {
                Some(i) => self.resources_view().contains_key(resource_id) && i.spec_view() == self.resources_view()[resource_id],
                None => !self.resources_view().contains_key(resource_id),
            },
    {
        match self.resources.get(&resource_id) {
            Some(i) => Some(i.duplicate()),
            None => None,
        }
    }

    /// Copies of the still tracked resources listed under a peer, each once,
    /// in the listing's iteration order.
    pub fn get_peer_resources(&self, peer_id: Id) -> (r: Vec<SharedResourceInfo>)
        ensures
            exists|ids: Seq<Id>| {
                &&& ids.no_duplicates()
                &&& ids.len() == r@.len()
                &&& ids.to_set() == peer_listing(self.resources_view(), self.index_view(), peer_id)
                &&& forall|i: int| 0 <= i < ids.len() ==> self.resources_view().contains_key(#[trigger] ids[i])
                    && r@[i].spec_view() == self.resources_view()[ids[i]]
            },
    {
        let mut r: Vec<SharedResourceInfo> = Vec::new();
        let ghost mut ids: Seq<Id> = Seq::empty();
        match self.peer_resources.get(&peer_id) {
            None => {
                assert(ids.to_set() =~= peer_listing(self.resources_view(), self.index_view(), peer_id));
            },
            Some(set) => {
                let items = set_items(set);
                let mut i: usize = 0;
                while i < items.len()
                    invariant
                        i <= items@.len(),
                        items@.no_duplicates(),
                        items@.to_set() == indexed(self.index_view(), peer_id),
                        ids.no_duplicates(),
                        ids.len() == r@.len(),
                        ids.to_set() == items@.take(i as int).to_set().filter(|x: Id| self.resources_view().contains_key(x)),
                        forall|j: int| 0 <= j < ids.len() ==> self.resources_view().contains_key(#[trigger] ids[j])
                            && r@[j].spec_view() == self.resources_view()[ids[j]],
                    decreases items@.len() - i,
                {
                    let k = items[i];
                    proof { lemma_take_one_more(items@, i as int); lemma_take_one_more_set(items@, i as int); }
                    if let Some(info) = self.resources.get(&k) {
                        proof {
                            if ids.contains(k) {
                                assert(ids.to_set().contains(k));
                                let v = choose|v: int| 0 <= v < i && items@.take(i as int)[v] == k;
                                assert(items@[v] == items@[i as int]);
                            }
                        }
                        r.push(info.duplicate());
                        proof {
                            ids.lemma_push_to_set_commute(k);
                            ids = ids.push(k);
                        }
                    }
                    assert(ids.to_set() =~= items@.take(i + 1).to_set().filter(|x: Id| self.resources_view().contains_key(x)));
                    i = i + 1;
                }
                assert(items@.take(i as int) == items@);
                assert(ids.to_set() =~= peer_listing(self.resources_view(), self.index_view(), peer_id));
            },
        }
        r
    }

    /// Stops tracking, at the current time, every resource not updated for
    /// longer than `max_age` nanoseconds.
    pub fn cleanup_expired(&mut self, max_age: u64)
        ensures
            exists|t: Timestamp| {
                &&& final(self).resources_view() == old(self).resources_view().remove_keys(expired_ids(old(self).resources_view(), t, max_age))
                &&& final(self).index_view() == index_without_all(old(self).index_view(), old(self).resources_view(), expired_ids(old(self).resources_view(), t, max_age))
            },
    {
        let t = now();
        self.cleanup_expired_at(max_age, t)
    }

    /// Stops tracking every resource last updated more than `max_age`
    /// nanoseconds before `now` (one updated after `now` stays), and strikes
    /// each from the listings of its owner and replicas.
    pub fn cleanup_expired_at(&mut self, max_age: u64, now: Timestamp)
        ensures
            final(self).resources_view() == old(self).resources_view().remove_keys(expired_ids(old(self).resources_view(), now, max_age)),
            final(self).index_view() == index_without_all(old(self).index_view(), old(self).resources_view(), expired_ids(old(self).resources_view(), now, max_age)),
    {
        let ghost res0 = self.resources_view();
        let ghost idx0 = self.index_view();
        let keys = map_keys(&self.resources);
        let mut expired: Vec<Id> = Vec::new();
        let mut i: usize = 0;
        while i < keys.len()
            invariant
                i <= keys@.len(),
                keys@.no_duplicates(),
                self.resources_view() == res0,
                forall|j: int| 0 <= j < keys@.len() ==> res0.contains_key(#[trigger] keys@[j]),
                forall|k: Id| res0.contains_key(k) ==> keys@.contains(k),
                expired@.no_duplicates(),
                expired@.to_set() == keys@.take(i as int).to_set().filter(|r: Id| older_than(res0[r].last_updated, now, max_age)),
            decreases keys@.len() - i,
        {
            let k = keys[i];
            proof { lemma_take_one_more(keys@, i as int); lemma_take_one_more_set(keys@, i as int); }
            let old_one = match self.resources.get(&k) {
                Some(info) => is_older_than(info.last_updated, now, max_age),
                None => false,
            };
            if old_one {
                proof {
                    if expired@.contains(k) {
                        assert(expired@.to_set().contains(k));
                        let v = choose|v: int| 0 <= v < i && keys@.take(i as int)[v] == k;
                        assert(keys@[v] == keys@[i as int]);
                    }
                }
                let ghost before = expired@;
                expired.push(k);
                proof { before.lemma_push_to_set_commute(k); }
            }
            assert(expired@.to_set() =~= keys@.take(i + 1).to_set().filter(|r: Id| older_than(res0[r].last_updated, now, max_age)));
            i = i + 1;
        }
        assert(keys@.take(i as int) == keys@);
        assert(expired@.to_set() =~= expired_ids(res0, now, max_age));
        assert forall|x: int| 0 <= x < expired@.len() implies res0.contains_key(#[trigger] expired@[x]) by {
            assert(expired@.to_set().contains(expired@[x]));
        }
        assert(expired@.take(0).to_set() =~= Set::<Id>::empty());
        assert forall|p: Id| #[trigger] idx0.contains_key(p) implies idx0[p] =~= index_without_all(idx0, res0, Set::<Id>::empty())[p] by {}
        assert(idx0 =~= index_without_all(idx0, res0, Set::<Id>::empty()));
        assert(res0 =~= res0.remove_keys(Set::<Id>::empty()));
        let mut j: usize = 0;
        while j < expired.len()
            invariant
                j <= expired@.len(),
                expired@.no_duplicates(),
                forall|x: int| 0 <= x < expired@.len() ==> res0.contains_key(#[trigger] expired@[x]),
                self.resources_view() == res0.remove_keys(expired@.take(j as int).to_set()),
                self.index_view() == index_without_all(idx0, res0, expired@.take(j as int).to_set()),
            decreases expired@.len() - j,
        {
            let rid = expired[j];
            proof {
                lemma_take_one_more(expired@, j as int);
                lemma_take_one_more_set(expired@, j as int);
                if expired@.take(j as int).contains(rid) {
                    let v = choose|v: int| 0 <= v < j && expired@.take(j as int)[v] == rid;
                    assert(expired@[v] == expired@[j as int]);
                }
            }
            let ghost idx_before = self.index_view();
            let ghost res_before = self.resources_view();
            self.remove_resource(rid);
            assert(res_before.contains_key(rid));
            assert(res_before[rid] == res0[rid]);
            assert(self.resources_view() =~= res0.remove_keys(expired@.take(j + 1).to_set()));
            assert(self.index_view() =~= index_without_all(idx0, res0, expired@.take(j + 1).to_set())) by {
                assert forall|p: Id| #[trigger] self.index_view().contains_key(p) implies
                    self.index_view()[p] =~= index_without_all(idx0, res0, expired@.take(j + 1).to_set())[p] by {
                }
            }
            j = j + 1;
        }
        assert(expired@.take(j as int) == expired@);
    }
}

impl Default for DistributedTracker {
    fn default() -> (t: Self)
        ensures
            t.resources_view() == Map::<Id, InfoView>::empty(),
            t.index_view() == Map::<Id, Set<Id>>::empty(),
    {
        DistributedTracker::new()
    }
}

/// Listing a resource under one more peer.
pub proof fn lemma_index_with_step(idx: Map<Id, Set<Id>>, peers: Set<Id>, p: Id, rid: Id)
    ensures
        index_with(index_with(idx, peers, rid), set![p], rid) == index_with(idx, peers.insert(p), rid),
{
    let a = index_with(index_with(idx, peers, rid), set![p], rid);
    let b = index_with(idx, peers.insert(p), rid);
    assert forall|q: Id| #[trigger] a.contains_key(q) implies a[q] =~= b[q] by {}
    assert(a =~= b);
}

/// Striking a resource from one more peer's listing.
pub proof fn lemma_index_without_step(idx: Map<Id, Set<Id>>, peers: Set<Id>, p: Id, rid: Id)
    ensures
        index_without(index_without(idx, peers, rid), set![p], rid) == index_without(idx, peers.insert(p), rid),
{
    let a = index_without(index_without(idx, peers, rid), set![p], rid);
    let b = index_without(idx, peers.insert(p), rid);
    assert forall|q: Id| #[trigger] a.contains_key(q) implies a[q] =~= b[q] by {}
    assert(a =~= b);
}

/// After a resource is added it is listed under its owner and under each
/// replica.
pub proof fn law_added_resource_is_listed(res: Map<Id, InfoView>, idx: Map<Id, Set<Id>>, info: InfoView, peer: Id)
    requires
        holders(info).contains(peer),
    ensures
        peer_listing(res.insert(info.resource_id, info), index_with(idx, holders(info), info.resource_id), peer).contains(info.resource_id),
{
}

/// A removed resource is listed under no peer.
pub proof fn law_removed_resource_is_listed_nowhere(res: Map<Id, InfoView>, idx: Map<Id, Set<Id>>, rid: Id, peer: Id, idx2: Map<Id, Set<Id>>)
    ensures
        !peer_listing(res.remove(rid), idx2, peer).contains(rid),
{
}

/// Every operation keeps each tracked resource listed under its owner:
/// adding (when the record's id is the key), updating (which keeps the
/// owner), removing and expiring.
pub proof fn law_owner_listing_kept(res: Map<Id, InfoView>, idx: Map<Id, Set<Id>>, info: InfoView, rid: Id, updated: InfoView, gone: Set<Id>)
    requires
        owners_indexed(res, idx),
    ensures
        owners_indexed(res.insert(info.resource_id, info), index_with(idx, holders(info), info.resource_id)),
        res.contains_key(rid) && updated.owner_id == res[rid].owner_id ==> owners_indexed(res.insert(rid, updated), idx),
        res.contains_key(rid) ==> owners_indexed(res.remove(rid), index_without(idx, holders(res[rid]), rid)),
        owners_indexed(res.remove_keys(gone), index_without_all(idx, res, gone)),
{
    assert forall|r: Id| #[trigger] res.insert(info.resource_id, info).contains_key(r) implies
        indexed(index_with(idx, holders(info), info.resource_id), res.insert(info.resource_id, info)[r].owner_id).contains(r) by {
        if r != info.resource_id {
            assert(res.contains_key(r));
        }
    }
    if res.contains_key(rid) && updated.owner_id == res[rid].owner_id {
        assert forall|r: Id| #[trigger] res.insert(rid, updated).contains_key(r) implies
            indexed(idx, res.insert(rid, updated)[r].owner_id).contains(r) by {
            assert(res.contains_key(r));
        }
    }
    if res.contains_key(rid) {
        assert forall|r: Id| #[trigger] res.remove(rid).contains_key(r) implies
            indexed(index_without(idx, holders(res[rid]), rid), res.remove(rid)[r].owner_id).contains(r) by {
            assert(res.contains_key(r));
        }
    }
    assert forall|r: Id| #[trigger] res.remove_keys(gone).contains_key(r) implies
        indexed(index_without_all(idx, res, gone), res.remove_keys(gone)[r].owner_id).contains(r) by {
        assert(res.contains_key(r));
        assert(indexed(idx, res[r].owner_id).contains(r));
    }
}

} // verus!
