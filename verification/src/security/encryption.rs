use vstd::prelude::*;
use vstd::slice::{slice_subrange, slice_to_vec};

use crate::security::cipher::{
    aead_open, aead_seal, chacha_decrypt, chacha_encrypt, encryptable_len, random_bytes, KEY_LEN,
    NONCE_LEN, TAG_LEN,
};

verus! {

/// Errors of payload encryption.
#[derive(Debug, Clone, Copy, PartialEq, Eq, Structural)]
pub enum EncryptionError {
    /// A key must be 32 bytes long.
    InvalidKeyLength,
    /// No key has been generated or set.
    NoKey,
    /// The cipher refused the message (too long).
    EncryptionFailed,
    /// Encrypted data must hold at least the 12-byte nonce.
    InvalidDataLength,
    /// The data did not authenticate under the key.
    DecryptionFailed,
}

/// Encrypts and decrypts payloads with one symmetric key, which it
/// generates or is given.
pub struct EncryptionManager {
    key: Option<Vec<u8>>,
}

impl View for EncryptionManager {
    type V = Option<Seq<u8>>;

    closed spec fn view(&self) -> Option<Seq<u8>> {
        match self.key {
            Some(k) => Some(k@),
            None => None,
        }
    }
}

/// What decrypting `data` under the key (if any) gives: the nonce is the
/// first 12 bytes, the ciphertext the rest.
pub open spec fn spec_decrypt(key: Option<Seq<u8>>, data: Seq<u8>) -> Result<Seq<u8>, EncryptionError> {
    if data.len() < NONCE_LEN {
        Err(EncryptionError::InvalidDataLength)
    } else {
        match key {
            None => Err(EncryptionError::NoKey),
            Some(k) => match aead_open(k, data.take(NONCE_LEN as int), data.skip(NONCE_LEN as int)) {
                Some(p) => Ok(p),
                None => Err(EncryptionError::DecryptionFailed),
            },
        }
    }
}

/// Whether `out` is an encryption of `data` under `key`: a 12-byte nonce,
/// then the sealed data under that nonce.
pub open spec fn is_encryption_of(key: Seq<u8>, data: Seq<u8>, out: Seq<u8>) -> bool {
    &&& out.len() >= NONCE_LEN
    &&& out.skip(NONCE_LEN as int) == aead_seal(key, out.take(NONCE_LEN as int), data)
    &&& aead_open(key, out.take(NONCE_LEN as int), out.skip(NONCE_LEN as int)) == Some(data)
}

impl EncryptionManager {
    /// Whether the key, where there is one, has the cipher's key length.
    pub closed spec fn wf(&self) -> bool {
        self.key matches Some(k) ==> k@.len() == KEY_LEN
    }

    /// A manager with no key.
    pub fn new() -> (m: Self)
        ensures
            m@ is None,
            m.wf(),
    {
        EncryptionManager { key: None }
    }

    /// Generates a random 32-byte key, keeps it and returns it.
    pub fn generate_key(&mut self) -> (r: Result<Vec<u8>, EncryptionError>)
        ensures
            r matches Ok(k) && k@.len() == KEY_LEN && final(self)@ == Some(k@),
            final(self).wf(),
    {
        let key = random_bytes(KEY_LEN);
        self.key = Some(key.clone());
        Ok(key)
    }

    /// Keeps the given key; a key that is not 32 bytes long is refused and
    /// the key kept so far stays.
    pub fn set_key(&mut self, key_bytes: &[u8]) -> (r: Result<(), EncryptionError>)
        requires
            old(self).wf(),
        ensures
            final(self).wf(),
            key_bytes@.len() == KEY_LEN ==> r is Ok && final(self)@ == Some(key_bytes@),
            key_bytes@.len() != KEY_LEN ==> r == Err::<(), EncryptionError>(EncryptionError::InvalidKeyLength) && final(self)@ == old(self)@,
    {
        if key_bytes.len() != KEY_LEN {
            return Err(EncryptionError::InvalidKeyLength);
        }
        self.key = Some(slice_to_vec(key_bytes));
        Ok(())
    }

    /// Encrypts `data` under the kept key with a fresh random nonce, and
    /// returns the nonce followed by the ciphertext. Without a key this is
    /// an error; so is data too long for the cipher.
    pub fn encrypt(&self, data: &[u8]) -> (r: Result<Vec<u8>, EncryptionError>)
        requires
            self.wf(),
        ensures
            self@ is None ==> r == Err::<Vec<u8>, EncryptionError>(EncryptionError::NoKey),
            self@ is Some && !encryptable_len(data@.len()) ==> r == Err::<Vec<u8>, EncryptionError>(EncryptionError::EncryptionFailed),
            self@ is Some && encryptable_len(data@.len()) ==> r is Ok,
            r matches Ok(out) ==> self@ matches Some(k) && is_encryption_of(k, data@, out@),
            r matches Ok(out) ==> out@.len() == data@.len() + NONCE_LEN + TAG_LEN,
    {
        let key = match &self.key {
            Some(k) => k,
            None => return Err(EncryptionError::NoKey),
        };
        let nonce = random_bytes(NONCE_LEN);
        let mut encrypted = match chacha_encrypt(key.as_slice(), nonce.as_slice(), data) {
            Some(c) => c,
            None => return Err(EncryptionError::EncryptionFailed),
        };
        let ghost sealed = encrypted@;
        let mut result = nonce.clone();
        result.append(&mut encrypted);
        assert(result@.take(NONCE_LEN as int) =~= nonce@);
        assert(result@.skip(NONCE_LEN as int) =~= sealed);
        Ok(result)
    }

    /// Decrypts data laid out as [`EncryptionManager::encrypt`] lays it out:
    /// data shorter than the nonce is an error (checked first), so is the
    /// lack of a key, and so is data that does not authenticate.
    pub fn decrypt(&self, data: &[u8]) -> (r: Result<Vec<u8>, EncryptionError>)
        requires
            self.wf(),
        ensures
            match (r, spec_decrypt(self@, data@)) {
                (Ok(p), Ok(q)) => p@ == q,
                (Err(e), Err(f)) => e == f,
                _ => false,
            },
    {
        if data.len() < NONCE_LEN {
            return Err(EncryptionError::InvalidDataLength);
        }
        let key = match &self.key {
            Some(k) => k,
            None => return Err(EncryptionError::NoKey),
        };
        let nonce = slice_subrange(data, 0, NONCE_LEN);
        let encrypted = slice_subrange(data, NONCE_LEN, data.len());
        assert(nonce@ =~= data@.take(NONCE_LEN as int));
        assert(encrypted@ =~= data@.skip(NONCE_LEN as int));
        match chacha_decrypt(key.as_slice(), nonce, encrypted) {
            Some(p) => Ok(p),
            None => Err(EncryptionError::DecryptionFailed),
        }
    }

    /// Encrypts a file chunk, as [`EncryptionManager::encrypt`].
    pub fn encrypt_file_chunk(&self, chunk: &[u8]) -> (r: Result<Vec<u8>, EncryptionError>)
        requires
            self.wf(),
        ensures
            self@ is None ==> r == Err::<Vec<u8>, EncryptionError>(EncryptionError::NoKey),
            self@ is Some && !encryptable_len(chunk@.len()) ==> r == Err::<Vec<u8>, EncryptionError>(EncryptionError::EncryptionFailed),
            self@ is Some && encryptable_len(chunk@.len()) ==> r is Ok,
            r matches Ok(out) ==> self@ matches Some(k) && is_encryption_of(k, chunk@, out@),
    {
        self.encrypt(chunk)
    }

    /// Decrypts a file chunk, as [`EncryptionManager::decrypt`].
    pub fn decrypt_file_chunk(&self, chunk: &[u8]) -> (r: Result<Vec<u8>, EncryptionError>)
        requires
            self.wf(),
        ensures
            match (r, spec_decrypt(self@, chunk@)) {
                (Ok(p), Ok(q)) => p@ == q,
                (Err(e), Err(f)) => e == f,
                _ => false,
            },
    {
        self.decrypt(chunk)
    }
}

impl Default for EncryptionManager {
    fn default() -> (m: Self)
        ensures
            m@ is None,
            m.wf(),
    {
        EncryptionManager::new()
    }
}

/// Decrypting what was encrypted under the same key gives the data back.
pub proof fn law_decrypt_inverts_encrypt(key: Seq<u8>, data: Seq<u8>, out: Seq<u8>)
    requires
        is_encryption_of(key, data, out),
    ensures
        spec_decrypt(Some(key), out) == Ok::<Seq<u8>, EncryptionError>(data),
{
}

} // verus!
