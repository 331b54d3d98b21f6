pub mod checksum;
pub mod chunking;
pub mod progress;
pub mod verification;
