use std::collections::HashSet;

use leni_deni::storage::distributed::{DistributedError, DistributedTracker, SharedResourceInfo};
use leni_deni::storage::metadata::{FileMetadata, MetadataError, MetadataManager, METADATA_MAX_AGE};
use leni_deni::storage::sharing::{Permissions, SharingError, SharingManager};

fn meta(name: &str, modified_at: u64) -> FileMetadata {
    FileMetadata {
        file_name: name.to_string(),
        file_size: 12,
        checksum: "c".to_string(),
        created_at: 0,
        modified_at,
        permissions: 0o644,
        shared_with: vec![3],
    }
}

fn info(resource_id: u128, owner_id: u128, replicas: &[u128], last_updated: u64) -> SharedResourceInfo {
    SharedResourceInfo {
        resource_id,
        owner_id,
        path: format!("/share/{}", resource_id),
        is_directory: false,
        size: 100,
        last_updated,
        replicas: replicas.iter().copied().collect::<HashSet<u128>>(),
    }
}

fn ids(v: &[SharedResourceInfo]) -> Vec<u128> {
    let mut r: Vec<u128> = v.iter().map(|i| i.resource_id).collect();
    r.sort();
    r
}

#[test]
fn metadata_store_and_read_back() {
    let mut m = MetadataManager::new();
    assert_eq!(m.add_metadata(1, meta("a", 5)), Ok(()));
    let got = m.get_metadata(1).unwrap();
    assert_eq!((got.file_name.as_str(), got.file_size, got.modified_at, got.shared_with), ("a", 12, 5, vec![3]));
    assert_eq!(m.update_metadata(1, meta("b", 6)), Ok(()));
    assert_eq!(m.get_metadata(1).unwrap().file_name, "b");
    assert_eq!(m.update_metadata(2, meta("c", 6)), Err(MetadataError::FileNotFound));
    assert!(m.get_metadata(2).is_none());
    assert_eq!(m.remove_metadata(1), Ok(()));
    assert_eq!(m.remove_metadata(1), Err(MetadataError::FileNotFound));
    assert!(MetadataManager::default().get_metadata(1).is_none());
}

#[test]
fn metadata_expiry() {
    let mut m = MetadataManager::new();
    m.add_metadata(1, meta("old", 0)).unwrap();
    m.add_metadata(2, meta("new", METADATA_MAX_AGE)).unwrap();
    m.cleanup_expired_at(METADATA_MAX_AGE).unwrap();
    assert!(m.get_metadata(1).is_none());
    assert!(m.get_metadata(2).is_some());
}

#[test]
fn shares_are_read_only_for_others() {
    let mut s = SharingManager::new();
    let id = s.share_file("/tmp/a.txt", 7).unwrap();
    let r = s.get_shared_resource(id).unwrap();
    assert_eq!((r.path.as_str(), r.is_directory, r.owner_id), ("/tmp/a.txt", false, 7));
    assert_eq!(r.permissions, Permissions::default());
    assert!(s.check_permission(id, 8, "read"));
    assert!(!s.check_permission(id, 8, "write"));
    assert!(!s.check_permission(id, 8, "share"));
    assert!(!s.check_permission(id, 8, "delete"));
    assert!(s.check_permission(id, 7, "write"));
    assert!(s.check_permission(id, 7, "anything"));
    assert!(!s.check_permission(id + 1, 7, "read"));
}

#[test]
fn only_owner_changes_a_share() {
    let mut s = SharingManager::default();
    let id = s.share_directory("/srv", 1).unwrap();
    assert!(s.get_shared_resource(id).unwrap().is_directory);
    let all = Permissions { read: true, write: true, share: true };
    assert_eq!(s.update_permissions(id, 2, all), Err(SharingError::NotAuthorizedToUpdatePermissions));
    assert!(!s.check_permission(id, 2, "write"));
    assert_eq!(s.update_permissions(id, 1, all), Ok(()));
    assert!(s.check_permission(id, 2, "write"));
    assert_eq!(s.unshare(id, 2), Err(SharingError::NotAuthorizedToUnshare));
    assert_eq!(s.unshare(id, 1), Ok(()));
    assert!(s.get_shared_resource(id).is_none());
    assert_eq!(s.unshare(id, 1), Ok(()));
    assert_eq!(s.update_permissions(id, 1, all), Ok(()));
}

#[test]
fn list_shared_resources_by_owner() {
    let mut s = SharingManager::new();
    s.share_file("/a", 1).unwrap();
    s.share_file("/b", 1).unwrap();
    s.share_file("/c", 2).unwrap();
    let mut paths: Vec<String> = s.list_shared_resources(1).into_iter().map(|r| r.path).collect();
    paths.sort();
    assert_eq!(paths, vec!["/a".to_string(), "/b".to_string()]);
    assert!(s.list_shared_resources(3).is_empty());
}

#[test]
fn distributed_listing_follows_owners_and_replicas() {
    let mut t = DistributedTracker::new();
    t.add_resource(info(10, 1, &[2, 3], 0));
    t.add_resource(info(11, 2, &[], 0));
    assert_eq!(ids(&t.get_peer_resources(1)), vec![10]);
    assert_eq!(ids(&t.get_peer_resources(2)), vec![10, 11]);
    assert_eq!(ids(&t.get_peer_resources(3)), vec![10]);
    assert!(t.get_peer_resources(4).is_empty());
    assert_eq!(t.get_resource(10).unwrap().path, "/share/10");
    t.remove_resource(10);
    assert!(t.get_resource(10).is_none());
    assert_eq!(ids(&t.get_peer_resources(2)), vec![11]);
    assert!(t.get_peer_resources(1).is_empty());
}

#[test]
fn distributed_update_keeps_owner() {
    let mut t = DistributedTracker::default();
    t.add_resource(info(10, 1, &[], 0));
    let mut u = info(99, 5, &[6], 0);
    u.path = "/moved".to_string();
    u.size = 7;
    assert_eq!(t.update_resource_at(10, u, 50), Ok(()));
    let r = t.get_resource(10).unwrap();
    assert_eq!((r.resource_id, r.owner_id, r.path.as_str(), r.size, r.last_updated), (10, 1, "/moved", 7, 50));
    assert!(r.replicas.contains(&6));
    assert_eq!(t.update_resource_at(12, info(12, 1, &[], 0), 50), Err(DistributedError::ResourceNotFound));
    assert_eq!(ids(&t.get_peer_resources(1)), vec![10]);
}

#[test]
fn distributed_expiry() {
    let mut t = DistributedTracker::new();
    t.add_resource(info(10, 1, &[2], 0));
    t.add_resource(info(11, 1, &[], 100));
    t.cleanup_expired_at(50, 120);
    assert!(t.get_resource(10).is_none());
    assert!(t.get_resource(11).is_some());
    assert_eq!(ids(&t.get_peer_resources(1)), vec![11]);
    assert!(t.get_peer_resources(2).is_empty());
}
