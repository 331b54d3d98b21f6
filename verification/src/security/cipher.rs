use vstd::prelude::*;
use chacha20poly1305::aead::{Aead, KeyInit};
use rand::RngCore;

verus! {

/// Key length of ChaCha20-Poly1305 in bytes.
pub const KEY_LEN: usize = 32;
/// Nonce length of ChaCha20-Poly1305 in bytes.
pub const NONCE_LEN: usize = 12;
/// Length of the authentication tag appended to a ciphertext.
pub const TAG_LEN: usize = 16;

/// The ciphertext (with its tag) that ChaCha20-Poly1305 makes of
/// `plaintext` under `key` and `nonce`, with no associated data.
pub uninterp spec fn aead_seal(key: Seq<u8>, nonce: Seq<u8>, plaintext: Seq<u8>) -> Seq<u8>;

/// The plaintext that ChaCha20-Poly1305 recovers from `ciphertext` under
/// `key` and `nonce`, or `None` where the tag does not authenticate it.
pub uninterp spec fn aead_open(key: Seq<u8>, nonce: Seq<u8>, ciphertext: Seq<u8>) -> Option<Seq<u8>>;

/// Whether ChaCha20-Poly1305 accepts a message of this length: fewer than
/// `u32::MAX` blocks of 64 bytes, so that its block counter cannot wrap.
pub open spec fn encryptable_len(len: nat) -> bool {
    len / 64 < u32::MAX
}

/// Calls `ChaCha20Poly1305::encrypt` (with no associated data) under
/// `key` and `nonce`. It fails only where the message is too long for the
/// block counter; otherwise the ciphertext is the message's length plus
/// the 16-byte tag, and decrypting it under the same key and nonce gives
/// the message back.
#[verifier::external_body]
pub(crate) fn chacha_encrypt(key: &[u8], nonce: &[u8], plaintext: &[u8]) -> (r: Option<Vec<u8>>)
    requires
        key@.len() == KEY_LEN,
        nonce@.len() == NONCE_LEN,
    ensures
        r is Some <==> encryptable_len(plaintext@.len()),
        r matches Some(c) ==> c@ == aead_seal(key@, nonce@, plaintext@)
            && c@.len() == plaintext@.len() + TAG_LEN
            && aead_open(key@, nonce@, c@) == Some(plaintext@),
{
    chacha20poly1305::ChaCha20Poly1305::new(chacha20poly1305::Key::from_slice(key))
        .encrypt(chacha20poly1305::Nonce::from_slice(nonce), plaintext)
        .ok()
}

/// Calls `ChaCha20Poly1305::decrypt` (with no associated data) under
/// `key` and `nonce`. A ciphertext shorter than the tag never decrypts.
#[verifier::external_body]
pub(crate) fn chacha_decrypt(key: &[u8], nonce: &[u8], ciphertext: &[u8]) -> (r: Option<Vec<u8>>)
    requires
        key@.len() == KEY_LEN,
        nonce@.len() == NONCE_LEN,
    ensures
        match r {
            Some(p) => aead_open(key@, nonce@, ciphertext@) == Some(p@),
            None => aead_open(key@, nonce@, ciphertext@) is None,
        },
        ciphertext@.len() < TAG_LEN ==> r is None,
{
    chacha20poly1305::ChaCha20Poly1305::new(chacha20poly1305::Key::from_slice(key))
        .decrypt(chacha20poly1305::Nonce::from_slice(nonce), ciphertext)
        .ok()
}

/// Fills `n` bytes from `rand::thread_rng` (`RngCore::fill_bytes`). The
/// bytes are random: only their number is claimed.
#[verifier::external_body]
pub(crate) fn random_bytes(n: usize) -> (r: Vec<u8>)
    ensures
        r@.len() == n,
{
    let mut buf = vec![0u8; n];
    rand::thread_rng().fill_bytes(&mut buf);
    buf
}

} // verus!
