use vstd::prelude::*;
use std::collections::HashMap;

use crate::clock::{is_younger_than, now, younger_than, Timestamp, NANOS_PER_SEC};
use crate::ids::Id;
use crate::keys::{lemma_take_one_more, map_keys};
use crate::security::cipher::{
    chacha_encrypt, encryptable_len, random_bytes, KEY_LEN, NONCE_LEN,
};

verus! {

broadcast use vstd::std_specs::hash::group_hash_axioms;

/// How long a peer stays trusted after it was last seen: five minutes.
pub const PEER_MAX_AGE: u64 = 300 * NANOS_PER_SEC;

/// Errors of peer authentication.
#[derive(Debug, Clone, Copy, PartialEq, Eq, Structural)]
pub enum AuthenticationError {
    /// The peer was last seen at a time after the current time.
    ClockWentBackwards,
    /// The cipher refused the challenge (too long).
    EncryptionFailed,
}

/// What is known of a peer.
#[derive(Debug, Clone)]
pub struct PeerCredentials {
    pub id: Id,
    pub public_key: Vec<u8>,
    pub shared_secret: Option<Vec<u8>>,
    pub last_seen: Timestamp,
}

/// A peer's credentials as values.
pub struct CredentialsView {
    pub id: Id,
    pub public_key: Seq<u8>,
    pub shared_secret: Option<Seq<u8>>,
    pub last_seen: Timestamp,
}

impl PeerCredentials {
    pub open spec fn spec_view(&self) -> CredentialsView {
        CredentialsView {
            id: self.id,
            public_key: self.public_key@,
            shared_secret: match self.shared_secret {
                Some(s) => Some(s@),
                None => None,
            },
            last_seen: self.last_seen,
        }
    }

    /// A copy of these credentials.
    pub fn duplicate(&self) -> (r: Self)
        ensures
            r.spec_view() == self.spec_view(),
    {
        PeerCredentials {
            id: self.id,
            public_key: self.public_key.clone(),
            shared_secret: match &self.shared_secret {
                Some(s) => Some(s.clone()),
                None => None,
            },
            last_seen: self.last_seen,
        }
    }
}

/// The outcome of authenticating a peer with the credentials recorded.
pub open spec fn authentication_outcome(m: Map<Id, CredentialsView>, peer_id: Id, now: Timestamp, challenge_len: nat) -> Result<bool, AuthenticationError> {
    if !m.contains_key(peer_id) {
        Ok(false)
    } else if now < m[peer_id].last_seen {
        Err(AuthenticationError::ClockWentBackwards)
    } else if now - m[peer_id].last_seen > PEER_MAX_AGE {
        Ok(false)
    } else if m[peer_id].shared_secret is None {
        Ok(false)
    } else if !encryptable_len(challenge_len) {
        Err(AuthenticationError::EncryptionFailed)
    } else {
        Ok(true)
    }
}

/// The credentials of peers seen within five minutes of `now`.
pub open spec fn kept_peers(m: Map<Id, CredentialsView>, now: Timestamp) -> Map<Id, CredentialsView> {
    m.restrict(m.dom().filter(|k: Id| younger_than(m[k].last_seen, now, PEER_MAX_AGE)))
}

/// Credentials of known peers, and this node's own cipher key.
pub struct AuthenticationManager {
    credentials: HashMap<Id, PeerCredentials>,
    key: Vec<u8>,
}

impl View for AuthenticationManager {
    type V = Map<Id, CredentialsView>;

    closed spec fn view(&self) -> Map<Id, CredentialsView> {
        self.credentials@.map_values(|c: PeerCredentials| c.spec_view())
    }
}

impl AuthenticationManager {
    /// The node's own cipher key, generated at random.
    pub closed spec fn own_key(&self) -> Seq<u8> {
        self.key@
    }

    /// A manager with no peers and a fresh random 32-byte key.
    pub fn new() -> (r: Result<Self, AuthenticationError>)
        ensures
            r matches Ok(m) && m@ == Map::<Id, CredentialsView>::empty() && m.own_key().len() == KEY_LEN,
    {
        let m = AuthenticationManager { credentials: HashMap::new(), key: random_bytes(KEY_LEN) };
        assert(m@ =~= Map::<Id, CredentialsView>::empty());
        Ok(m)
    }

    /// Registers a peer's public key, seen now; an earlier record of the
    /// peer, and any secret shared with it, is replaced.
    pub fn register_peer(&mut self, peer_id: Id, public_key: Vec<u8>) -> (r: Result<(), AuthenticationError>)
        ensures
            r is Ok,
            exists|t: Timestamp| final(self)@ == old(self)@.insert(peer_id, CredentialsView { id: peer_id, public_key: public_key@, shared_secret: None, last_seen: t }),
    {
        let t = now();
        self.register_peer_at(peer_id, public_key, t)
    }

    /// Registers a peer's public key, seen at `now`.
    pub fn register_peer_at(&mut self, peer_id: Id, public_key: Vec<u8>, now: Timestamp) -> (r: Result<(), AuthenticationError>)
        ensures
            r is Ok,
            final(self)@ == old(self)@.insert(peer_id, CredentialsView { id: peer_id, public_key: public_key@, shared_secret: None, last_seen: now }),
            final(self).own_key() == old(self).own_key(),
    {
        self.credentials.insert(
            peer_id,
            PeerCredentials { id: peer_id, public_key, shared_secret: None, last_seen: now },
        );
        assert(self@ =~= old(self)@.insert(peer_id, CredentialsView { id: peer_id, public_key: public_key@, shared_secret: None, last_seen: now }));
        Ok(())
    }

    /// Authenticates a peer at the current time.
    pub fn authenticate_peer(&self, peer_id: Id, challenge: &[u8]) -> (r: Result<bool, AuthenticationError>)
        requires
            self@.contains_key(peer_id) && self@[peer_id].shared_secret is Some ==> self@[peer_id].shared_secret->0.len() == KEY_LEN,
        ensures
            exists|t: Timestamp| r == authentication_outcome(self@, peer_id, t, challenge@.len()),
    {
        let t = now();
        self.authenticate_peer_at(peer_id, challenge, t)
    }

    /// Authenticates a peer at time `now`: an unknown peer, one not seen in
    /// the last five minutes, or one with no shared secret is not
    /// authenticated; a peer seen after `now` is an error. Otherwise the
    /// challenge is sealed under the shared secret with a fresh nonce
    /// (where the cipher accepts it) and the peer is authenticated.
    pub fn authenticate_peer_at(&self, peer_id: Id, challenge: &[u8], now: Timestamp) -> (r: Result<bool, AuthenticationError>)
        requires
            self@.contains_key(peer_id) && self@[peer_id].shared_secret is Some ==> self@[peer_id].shared_secret->0.len() == KEY_LEN,
        ensures
            r == authentication_outcome(self@, peer_id, now, challenge@.len()),
    {
        match self.credentials.get(&peer_id) {
            None => Ok(false),
            Some(peer) => {
                if now < peer.last_seen {
                    return Err(AuthenticationError::ClockWentBackwards);
                }
                if now - peer.last_seen > PEER_MAX_AGE {
                    return Ok(false);
                }
                match &peer.shared_secret {
                    Some(secret) => {
                        let nonce = random_bytes(NONCE_LEN);
                        match chacha_encrypt(secret.as_slice(), nonce.as_slice(), challenge) {
                            Some(_response) => Ok(true),
                            None => Err(AuthenticationError::EncryptionFailed),
                        }
                    },
                    None => Ok(false),
                }
            },
        }
    }

    /// Records the secret shared with a known peer, seen now; an unknown
    /// peer is ignored.
    pub fn set_shared_secret(&mut self, peer_id: Id, secret: Vec<u8>) -> (r: Result<(), AuthenticationError>)
        ensures
            r is Ok,
            !old(self)@.contains_key(peer_id) ==> final(self)@ == old(self)@,
            old(self)@.contains_key(peer_id) ==> final(self)@ == old(self)@.insert(peer_id, CredentialsView { shared_secret: Some(secret@), last_seen: final(self)@[peer_id].last_seen, ..old(self)@[peer_id] }),
    {
        let t = now();
        self.set_shared_secret_at(peer_id, secret, t)
    }

    /// Records the secret shared with a known peer, seen at `now`.
    pub fn set_shared_secret_at(&mut self, peer_id: Id, secret: Vec<u8>, now: Timestamp) -> (r: Result<(), AuthenticationError>)
        ensures
            r is Ok,
            !old(self)@.contains_key(peer_id) ==> final(self)@ == old(self)@,
            old(self)@.contains_key(peer_id) ==> final(self)@ == old(self)@.insert(peer_id, CredentialsView { shared_secret: Some(secret@), last_seen: now, ..old(self)@[peer_id] }),
            final(self).own_key() == old(self).own_key(),
    {
        let updated = match self.credentials.get(&peer_id) {
            Some(peer) => {
                let mut p = peer.duplicate();
                p.shared_secret = Some(secret);
                p.last_seen = now;
                Some(p)
            },
            None => None,
        };
        if let Some(p) = updated {
            self.credentials.insert(peer_id, p);
            assert(self@ =~= old(self)@.insert(peer_id, CredentialsView { shared_secret: Some(secret@), last_seen: now, ..old(self)@[peer_id] }));
        }
        Ok(())
    }

    /// A copy of a peer's credentials, if it is known.
    pub fn get_peer_credentials(&self, peer_id: Id) -> (r: Option<PeerCredentials>)
        ensures
            match r {
                Some(c) => self@.contains_key(peer_id) && c.spec_view() == self@[peer_id],
                None => !self@.contains_key(peer_id),
            },
    {
        match self.credentials.get(&peer_id) {
            Some(c) => Some(c.duplicate()),
            None => None,
        }
    }

    /// Forgets a peer.
    pub fn remove_peer(&mut self, peer_id: Id) -> (r: Result<(), AuthenticationError>)
        ensures
            r is Ok,
            final(self)@ == old(self)@.remove(peer_id),
    {
        self.credentials.remove(&peer_id);
        assert(self@ =~= old(self)@.remove(peer_id));
        Ok(())
    }

    /// Forgets, at the current time, every peer not seen in five minutes.
    pub fn cleanup_expired_peers(&mut self) -> (r: Result<(), AuthenticationError>)
        ensures
            r is Ok,
            exists|t: Timestamp| final(self)@ == kept_peers(old(self)@, t),
    {
        let t = now();
        self.cleanup_expired_peers_at(t)
    }

    /// Forgets every peer last seen five minutes or more before `now`, or
    /// after it.
    pub fn cleanup_expired_peers_at(&mut self, now: Timestamp) -> (r: Result<(), AuthenticationError>)
        ensures
            r is Ok,
            final(self)@ == kept_peers(old(self)@, now),
            final(self).own_key() == old(self).own_key(),
    {
        let ghost before = self.credentials@;
        let keys = map_keys(&self.credentials);
        let mut i: usize = 0;
        while i < keys.len()
            invariant
                i <= keys@.len(),
                self.key@ == old(self).key@,
                forall|j: int| 0 <= j < keys@.len() ==> before.contains_key(#[trigger] keys@[j]),
                forall|k: Id| before.contains_key(k) ==> keys@.contains(k),
                forall|k: Id| #[trigger] self.credentials@.contains_key(k) <==> before.contains_key(k)
                    && (!keys@.take(i as int).contains(k) || younger_than(before[k].last_seen, now, PEER_MAX_AGE)),
                forall|k: Id| #[trigger] self.credentials@.contains_key(k) ==> self.credentials@[k] == before[k],
            decreases keys@.len() - i,
        {
            let k = keys[i];
            let stale = match self.credentials.get(&k) {
                Some(v) => !is_younger_than(v.last_seen, now, PEER_MAX_AGE),
                None => false,
            };
            if stale {
                self.credentials.remove(&k);
            }
            proof { lemma_take_one_more(keys@, i as int); }
            i = i + 1;
        }
        assert(keys@.take(i as int) == keys@);
        assert(self@ =~= kept_peers(old(self)@, now));
        Ok(())
    }
}

/// A peer with a shared secret, seen within five minutes and not in the
/// future, is authenticated for any challenge the cipher accepts; a peer
/// that was forgotten is not authenticated.
pub proof fn law_authentication(m: Map<Id, CredentialsView>, peer_id: Id, now: Timestamp, challenge_len: nat)
    ensures
        m.contains_key(peer_id) && m[peer_id].shared_secret is Some && m[peer_id].last_seen <= now
            && now - m[peer_id].last_seen <= PEER_MAX_AGE && encryptable_len(challenge_len)
            ==> authentication_outcome(m, peer_id, now, challenge_len) == Ok::<bool, AuthenticationError>(true),
        authentication_outcome(m.remove(peer_id), peer_id, now, challenge_len) == Ok::<bool, AuthenticationError>(false),
        m.contains_key(peer_id) && m[peer_id].shared_secret is None && m[peer_id].last_seen <= now
            ==> authentication_outcome(m, peer_id, now, challenge_len) == Ok::<bool, AuthenticationError>(false),
{
}

/// A freshly registered peer has no shared secret, so it is not
/// authenticated until a secret is set.
pub proof fn law_registered_peer_needs_secret(m: Map<Id, CredentialsView>, peer_id: Id, key: Seq<u8>, t: Timestamp, challenge_len: nat)
    ensures
        authentication_outcome(m.insert(peer_id, CredentialsView { id: peer_id, public_key: key, shared_secret: None, last_seen: t }), peer_id, t, challenge_len)
            == Ok::<bool, AuthenticationError>(false),
{
}

} // verus!
