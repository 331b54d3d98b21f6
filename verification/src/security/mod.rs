pub mod authentication;
pub mod cipher;
pub mod encryption;
