//! A content-addressable file cache, verified.
//!
//! Clients submit a source URL; the cache fetches the content, stores the
//! bytes under a digest derived from the URL, and records a durable
//! (digest, source URL) mapping. A read path serves stored bytes by digest,
//! and a health path reports liveness. The modules here hold the coordination
//! layer — hashing, the blob store, the append-only mapping index, the
//! ingestion protocol, the request/response rules of the three services, and
//! the shutdown state machine — each with a proved contract.

pub mod config;
pub mod coordinator;
pub mod digest;
pub mod index;
pub mod lifecycle;
pub mod render;
pub mod service;
pub mod store;
pub mod text;
