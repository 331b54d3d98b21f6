use vstd::prelude::*;
use std::collections::HashMap;

use crate::ids::{new_uuid, Id};
use crate::keys::{lemma_take_one_more, map_keys};
use crate::text::str_equals;

verus! {

broadcast use vstd::std_specs::hash::group_hash_axioms;

/// Errors of the sharing registry.
#[derive(Debug, Clone, Copy, PartialEq, Eq, Structural)]
pub enum SharingError {
    /// Only the owner may unshare a resource.
    NotAuthorizedToUnshare,
    /// Only the owner may change a resource's permissions.
    NotAuthorizedToUpdatePermissions,
}

/// What users other than the owner may do with a shared resource.
#[derive(Debug, Clone, Copy, PartialEq, Eq, Structural)]
pub struct Permissions {
    pub read: bool,
    pub write: bool,
    pub share: bool,
}

impl Default for Permissions {
    /// Read only.
    fn default() -> (p: Self)
        ensures
            p == (Permissions { read: true, write: false, share: false }),
    {
        Permissions { read: true, write: false, share: false }
    }
}

/// A file or directory shared by its owner.
#[derive(Debug, Clone)]
pub struct SharedResource {
    pub path: String,
    pub is_directory: bool,
    pub permissions: Permissions,
    pub owner_id: Id,
}

/// A shared resource as values.
pub struct ResourceView {
    pub path: Seq<char>,
    pub is_directory: bool,
    pub permissions: Permissions,
    pub owner_id: Id,
}

impl SharedResource {
    pub open spec fn spec_view(&self) -> ResourceView {
        ResourceView {
            path: self.path@,
            is_directory: self.is_directory,
            permissions: self.permissions,
            owner_id: self.owner_id,
        }
    }

    /// A copy of this resource.
    pub fn duplicate(&self) -> (r: Self)
        ensures
            r.spec_view() == self.spec_view(),
    {
        SharedResource {
            path: self.path.clone(),
            is_directory: self.is_directory,
            permissions: self.permissions,
            owner_id: self.owner_id,
        }
    }
}

/// A newly shared resource: readable by others, nothing more.
pub open spec fn new_share(path: Seq<char>, is_directory: bool, owner_id: Id) -> ResourceView {
    ResourceView {
        path,
        is_directory,
        permissions: Permissions { read: true, write: false, share: false },
        owner_id,
    }
}

/// Whether `user_id` may do `permission` ("read", "write" or "share") with
/// the resource: the owner may do anything, anyone else what the
/// permissions grant; an unknown resource or permission grants nothing.
pub open spec fn permitted(m: Map<Id, ResourceView>, resource_id: Id, user_id: Id, permission: Seq<char>) -> bool {
    if !m.contains_key(resource_id) {
        false
    } else if m[resource_id].owner_id == user_id {
        true
    } else if permission == "read"@ {
        m[resource_id].permissions.read
    } else if permission == "write"@ {
        m[resource_id].permissions.write
    } else if permission == "share"@ {
        m[resource_id].permissions.share
    } else {
        false
    }
}

/// Registry of shared resources, by resource id.
pub struct SharingManager {
    shared_resources: HashMap<Id, SharedResource>,
}

impl View for SharingManager {
    type V = Map<Id, ResourceView>;

    closed spec fn view(&self) -> Map<Id, ResourceView> {
        self.shared_resources@.map_values(|r: SharedResource| r.spec_view())
    }
}

impl SharingManager {
    /// A registry with nothing shared.
    pub fn new() -> (m: Self)
        ensures
            m@ == Map::<Id, ResourceView>::empty(),
    {
        let m = SharingManager { shared_resources: HashMap::new() };
        assert(m@ =~= Map::<Id, ResourceView>::empty());
        m
    }

    fn share(&mut self, path: &str, is_directory: bool, owner_id: Id) -> (r: Result<Id, SharingError>)
        ensures
            r matches Ok(id) && final(self)@ == old(self)@.insert(id, new_share(path@, is_directory, owner_id)),
    {
        let resource_id = new_uuid();
        let resource = SharedResource {
            path: path.to_owned(),
            is_directory,
            permissions: Permissions::default(),
            owner_id,
        };
        self.shared_resources.insert(resource_id, resource);
        assert(self@ =~= old(self)@.insert(resource_id, new_share(path@, is_directory, owner_id)));
        Ok(resource_id)
    }

    /// Shares a file under a fresh random id, readable by others.
    pub fn share_file(&mut self, path: &str, owner_id: Id) -> (r: Result<Id, SharingError>)
        ensures
            r matches Ok(id) && final(self)@ == old(self)@.insert(id, new_share(path@, false, owner_id)),
    {
        self.share(path, false, owner_id)
    }

    /// Shares a directory under a fresh random id, readable by others.
    pub fn share_directory(&mut self, path: &str, owner_id: Id) -> (r: Result<Id, SharingError>)
        ensures
            r matches Ok(id) && final(self)@ == old(self)@.insert(id, new_share(path@, true, owner_id)),
    {
        self.share(path, true, owner_id)
    }

    /// Stops sharing a resource. Only its owner may; anyone else gets an
    /// error and the resource stays. An unknown resource is no error.
    pub fn unshare(&mut self, resource_id: Id, owner_id: Id) -> (r: Result<(), SharingError>)
        ensures
            old(self)@.contains_key(resource_id) && old(self)@[resource_id].owner_id != owner_id
                ==> r == Err::<(), SharingError>(SharingError::NotAuthorizedToUnshare) && final(self)@ == old(self)@,
            old(self)@.contains_key(resource_id) && old(self)@[resource_id].owner_id == owner_id
                ==> r is Ok && final(self)@ == old(self)@.remove(resource_id),
            !old(self)@.contains_key(resource_id) ==> r is Ok && final(self)@ == old(self)@,
    {
        let owner = match self.shared_resources.get(&resource_id) {
            Some(resource) => Some(resource.owner_id),
            None => None,
        };
        if let Some(o) = owner {
            if o != owner_id {
                return Err(SharingError::NotAuthorizedToUnshare);
            }
            self.shared_resources.remove(&resource_id);
            assert(self@ =~= old(self)@.remove(resource_id));
        }
        Ok(())
    }

    /// Replaces a resource's permissions. Only its owner may; anyone else
    /// gets an error and nothing changes. An unknown resource is no error.
    pub fn update_permissions(&mut self, resource_id: Id, owner_id: Id, permissions: Permissions) -> (r: Result<(), SharingError>)
        ensures
            old(self)@.contains_key(resource_id) && old(self)@[resource_id].owner_id != owner_id
                ==> r == Err::<(), SharingError>(SharingError::NotAuthorizedToUpdatePermissions) && final(self)@ == old(self)@,
            old(self)@.contains_key(resource_id) && old(self)@[resource_id].owner_id == owner_id
                ==> r is Ok && final(self)@ == old(self)@.insert(resource_id, ResourceView { permissions, ..old(self)@[resource_id] }),
            !old(self)@.contains_key(resource_id) ==> r is Ok && final(self)@ == old(self)@,
    {
        let updated = match self.shared_resources.get(&resource_id) {
            Some(resource) => {
                if resource.owner_id != owner_id {
                    return Err(SharingError::NotAuthorizedToUpdatePermissions);
                }
                let mut r = resource.duplicate();
                r.permissions = permissions;
                Some(r)
            },
            None => None,
        };
        if let Some(r) = updated {
            self.shared_resources.insert(resource_id, r);
            assert(self@ =~= old(self)@.insert(resource_id, ResourceView { permissions, ..old(self)@[resource_id] }));
        }
        Ok(())
    }

    /// A copy of a shared resource, if it exists.
    pub fn get_shared_resource(&self, resource_id: Id) -> (r: Option<SharedResource>)
        ensures
            match r {
                Some(res) => self@.contains_key(resource_id) && res.spec_view() == self@[resource_id],
                None => !self@.contains_key(resource_id),
            },
    {
        match self.shared_resources.get(&resource_id) {
            Some(res) => Some(res.duplicate()),
            None => None,
        }
    }

    /// Copies of the resources that `owner_id` shares, each once, in the
    /// registry's iteration order.
    pub fn list_shared_resources(&self, owner_id: Id) -> (r: Vec<SharedResource>)
        ensures
            exists|ids: Seq<Id>| {
                &&& ids.no_duplicates()
                &&& ids.len() == r@.len()
                &&& forall|i: int| 0 <= i < ids.len() ==> self@.contains_key(#[trigger] ids[i])
                    && self@[ids[i]].owner_id == owner_id && r@[i].spec_view() == self@[ids[i]]
                &&& forall|k: Id| self@.contains_key(k) && self@[k].owner_id == owner_id ==> ids.contains(k)
            },
    {
        let keys = map_keys(&self.shared_resources);
        let mut r: Vec<SharedResource> = Vec::new();
        let ghost mut ids: Seq<Id> = Seq::empty();
        let mut i: usize = 0;
        while i < keys.len()
            invariant
                i <= keys@.len(),
                keys@.no_duplicates(),
                forall|j: int| 0 <= j < keys@.len() ==> self@.contains_key(#[trigger] keys@[j]),
                forall|k: Id| self@.contains_key(k) ==> keys@.contains(k),
                ids.no_duplicates(),
                ids.len() == r@.len(),
                forall|j: int| 0 <= j < ids.len() ==> keys@.take(i as int).contains(#[trigger] ids[j]),
                forall|j: int| 0 <= j < ids.len() ==> self@.contains_key(#[trigger] ids[j])
                    && self@[ids[j]].owner_id == owner_id && r@[j].spec_view() == self@[ids[j]],
                forall|k: Id| keys@.take(i as int).contains(k) && self@[k].owner_id == owner_id ==> ids.contains(k),
            decreases keys@.len() - i,
        {
            let k = keys[i];
            proof { lemma_take_one_more(keys@, i as int); }
            if let Some(res) = self.shared_resources.get(&k) {
                if res.owner_id == owner_id {
                    proof {
                        if ids.contains(k) {
                            let w = choose|w: int| 0 <= w < ids.len() && ids[w] == k;
                            assert(keys@.take(i as int).contains(ids[w]));
                            let v = choose|v: int| 0 <= v < i && keys@.take(i as int)[v] == k;
                            assert(keys@[v] == keys@[i as int]);
                        }
                    }
                    r.push(res.duplicate());
                    proof {
                        let old_ids = ids;
                        ids = ids.push(k);
                        assert forall|x: Id| old_ids.contains(x) implies ids.contains(x) by {
                            let w = choose|w: int| 0 <= w < old_ids.len() && old_ids[w] == x;
                            assert(ids[w] == x);
                        }
                        assert(ids[ids.len() - 1] == k);
                    }
                }
            }
            i = i + 1;
        }
        assert(keys@.take(i as int) == keys@);
        r
    }

    /// Whether `user_id` may do `permission` ("read", "write" or "share")
    /// with a resource: owners may do anything.
    pub fn check_permission(&self, resource_id: Id, user_id: Id, permission: &str) -> (b: bool)
        ensures
            b == permitted(self@, resource_id, user_id, permission@),
    {
        match self.shared_resources.get(&resource_id) {
            None => false,
            Some(resource) => {
                if resource.owner_id == user_id {
                    return true;
                }
                if str_equals(permission, "read") {
                    resource.permissions.read
                } else if str_equals(permission, "write") {
                    resource.permissions.write
                } else if str_equals(permission, "share") {
                    resource.permissions.share
                } else {
                    false
                }
            },
        }
    }
}

impl Default for SharingManager {
    fn default() -> (m: Self)
        ensures
            m@ == Map::<Id, ResourceView>::empty(),
    {
        SharingManager::new()
    }
}

/// For anyone but the owner, each permission is exactly its own flag:
/// "read" is the read flag, "write" the write flag, "share" the share flag,
/// and any other permission is refused.
pub proof fn law_permission_is_its_flag(m: Map<Id, ResourceView>, resource_id: Id, user_id: Id, other: Seq<char>)
    requires
        m.contains_key(resource_id),
        m[resource_id].owner_id != user_id,
        other != "read"@ && other != "write"@ && other != "share"@,
    ensures
        permitted(m, resource_id, user_id, "read"@) == m[resource_id].permissions.read,
        permitted(m, resource_id, user_id, "write"@) == m[resource_id].permissions.write,
        permitted(m, resource_id, user_id, "share"@) == m[resource_id].permissions.share,
        !permitted(m, resource_id, user_id, other),
        !permitted(m.remove(resource_id), resource_id, user_id, "read"@),
{
    reveal_strlit("read");
    reveal_strlit("write");
    reveal_strlit("share");
    assert("write"@.len() != "read"@.len());
    assert("share"@.len() != "read"@.len());
    assert("share"@[0] != "write"@[0]);
}

/// The owner of a shared resource may do anything with it.
pub proof fn law_owner_has_all_permissions(m: Map<Id, ResourceView>, resource_id: Id, permission: Seq<char>)
    requires
        m.contains_key(resource_id),
    ensures
        permitted(m, resource_id, m[resource_id].owner_id, permission),
{
}

/// A new share grants others reading only; nothing is permitted on a
/// resource no longer shared.
pub proof fn law_new_share_is_read_only(m: Map<Id, ResourceView>, id: Id, path: Seq<char>, is_directory: bool, owner: Id, user: Id)
    requires
        user != owner,
    ensures
        permitted(m.insert(id, new_share(path, is_directory, owner)), id, user, "read"@),
        !permitted(m.insert(id, new_share(path, is_directory, owner)), id, user, "write"@),
        !permitted(m.insert(id, new_share(path, is_directory, owner)), id, user, "share"@),
        !permitted(m.remove(id), id, user, "read"@),
{
    reveal_strlit("read");
    reveal_strlit("write");
    reveal_strlit("share");
    assert("write"@.len() != "read"@.len());
    assert("share"@.len() != "read"@.len());
    assert("share"@[0] != "write"@[0]);
}

} // verus!
