//! Verified core of a peer-to-peer file sharing node: wire protocol,
//! transfer bookkeeping, storage registries and payload encryption.

pub mod bytes;
pub mod clock;
pub mod ids;
pub mod network;
pub mod security;
pub mod storage;
pub mod text;
pub mod transfer;
pub mod keys;
