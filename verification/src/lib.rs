//! A time-bounded cache layer for an avatar-animation service: identity
//! parsing, cache-key derivation, TTL freshness policy, the fetch/transform
//! coordination steps, and response rendering in three output modes, all
//! sharing one stored payload representation. Repeated requests for one
//! (identity, filter) pair are served from memory while the entry is fresh;
//! concurrent misses each complete on their own and the last write wins.

pub mod cache;
pub mod config;
pub mod coordinator;
pub mod filters;
pub mod pipeline;
pub mod render;
pub mod shared;
pub mod text;
