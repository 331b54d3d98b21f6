pub mod distributed;
pub mod metadata;
pub mod sharing;
