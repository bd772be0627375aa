//! A pluggable remote-cache storage backend over a document database.
//!
//! The crate models a build-artifact cache keyed by opaque string
//! fingerprints. A [`backend::MongoDBCache`] realizes the storage contract
//! (`get`, `put`, `location`, `current_size`, `max_size`) on top of a
//! lazily-connected document collection; [`connection::ConnectionHandle`]
//! guarantees that the shared connection is published exactly once even when
//! many callers race to establish it.

pub mod backend;
pub mod clock;
pub mod codec;
pub mod collection;
pub mod connection;
pub mod document;
pub mod errors;
pub mod read;
pub mod write;
