//! A small URL-shortening library: a deterministic fingerprint of a URL
//! supplies candidate slugs, and a collision-aware resolver assigns each URL
//! a stable slug against a store of persisted records.

pub mod content_type;
pub mod digest;
pub mod laws;
pub mod resolver;
pub mod store;
