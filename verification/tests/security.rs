use leni_deni::security::authentication::{AuthenticationError, AuthenticationManager, PEER_MAX_AGE};
use leni_deni::security::encryption::{EncryptionError, EncryptionManager};

#[test]
fn encrypt_then_decrypt_gives_data_back() {
    let mut m = EncryptionManager::new();
    let key = m.generate_key().unwrap();
    assert_eq!(key.len(), 32);
    let data = b"hello, peer".to_vec();
    let sealed = m.encrypt(&data).unwrap();
    assert_eq!(sealed.len(), data.len() + 12 + 16);
    assert_ne!(&sealed[12..12 + data.len()], &data[..]);
    assert_eq!(m.decrypt(&sealed).unwrap(), data);
    let chunk = m.encrypt_file_chunk(&[7u8; 100]).unwrap();
    assert_eq!(m.decrypt_file_chunk(&chunk).unwrap(), vec![7u8; 100]);
}

#[test]
fn fresh_nonce_per_encryption() {
    let mut m = EncryptionManager::default();
    m.set_key(&[1u8; 32]).unwrap();
    let a = m.encrypt(b"same").unwrap();
    let b = m.encrypt(b"same").unwrap();
    assert_ne!(a, b);
}

#[test]
fn encryption_errors() {
    let mut m = EncryptionManager::new();
    assert_eq!(m.encrypt(b"x"), Err(EncryptionError::NoKey));
    assert_eq!(m.decrypt(&[0u8; 11]), Err(EncryptionError::InvalidDataLength));
    assert_eq!(m.decrypt(&[0u8; 40]), Err(EncryptionError::NoKey));
    assert_eq!(m.set_key(&[0u8; 31]), Err(EncryptionError::InvalidKeyLength));
    m.set_key(&[3u8; 32]).unwrap();
    let mut sealed = m.encrypt(b"secret").unwrap();
    sealed[20] ^= 1;
    assert_eq!(m.decrypt(&sealed), Err(EncryptionError::DecryptionFailed));
    let mut other = EncryptionManager::new();
    other.set_key(&[4u8; 32]).unwrap();
    let sealed = m.encrypt(b"secret").unwrap();
    assert_eq!(other.decrypt(&sealed), Err(EncryptionError::DecryptionFailed));
}

#[test]
fn authentication_needs_recent_peer_with_secret() {
    let mut a = AuthenticationManager::new().unwrap();
    assert_eq!(a.authenticate_peer_at(1, b"challenge", 0), Ok(false));
    a.register_peer_at(1, vec![1, 2, 3], 100).unwrap();
    let c = a.get_peer_credentials(1).unwrap();
    assert_eq!((c.id, c.public_key.clone(), c.shared_secret.clone(), c.last_seen), (1, vec![1, 2, 3], None, 100));
    assert_eq!(a.authenticate_peer_at(1, b"challenge", 100), Ok(false));
    a.set_shared_secret_at(1, vec![9u8; 32], 200).unwrap();
    assert_eq!(a.get_peer_credentials(1).unwrap().last_seen, 200);
    assert_eq!(a.authenticate_peer_at(1, b"challenge", 200), Ok(true));
    assert_eq!(a.authenticate_peer_at(1, b"challenge", 200 + PEER_MAX_AGE), Ok(true));
    assert_eq!(a.authenticate_peer_at(1, b"challenge", 201 + PEER_MAX_AGE), Ok(false));
    assert_eq!(a.authenticate_peer_at(1, b"challenge", 199), Err(AuthenticationError::ClockWentBackwards));
    a.set_shared_secret_at(2, vec![9u8; 32], 200).unwrap();
    assert!(a.get_peer_credentials(2).is_none());
}

#[test]
fn removal_and_expiry_of_peers() {
    let mut a = AuthenticationManager::new().unwrap();
    a.register_peer_at(1, vec![], 0).unwrap();
    a.register_peer_at(2, vec![], PEER_MAX_AGE).unwrap();
    a.register_peer(3, vec![]).unwrap();
    a.remove_peer(3).unwrap();
    assert!(a.get_peer_credentials(3).is_none());
    a.cleanup_expired_peers_at(PEER_MAX_AGE).unwrap();
    assert!(a.get_peer_credentials(1).is_none());
    assert!(a.get_peer_credentials(2).is_some());
}
