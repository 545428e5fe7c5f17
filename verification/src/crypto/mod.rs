//! HMAC-SHA256 signatures and the encodings that carry them.

pub mod encoding;
pub mod guards;
pub mod service;
