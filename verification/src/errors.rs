//! The error taxonomy of the storage contract.
//!
//! Every failure of a cache operation is one of five tagged kinds, each
//! carrying a human-readable cause. A lookup miss is *not* an error: it is a
//! successful outcome, kept apart from every kind below.

use vstd::prelude::*;

verus! {

/// A failure of one cache operation. No variant is fatal: each failure is
/// local to the operation that produced it and nothing is retried internally.
#[derive(Debug)]
pub enum StorageError {
    /// Client or transport setup failed; the connection slot is untouched.
    ConnectionError(String),
    /// A lookup round-trip failed on an established connection.
    QueryError(String),
    /// An insert round-trip failed on an established connection.
    InsertError(String),
    /// A matched record could not be parsed into the expected record shape.
    DecodeError(String),
    /// Payload finalization or record serialization failed.
    EncodeError(String),
}

impl StorageError {
    /// The human-readable cause carried by the error.
    pub open spec fn spec_message(&self) -> Seq<char> {
        match self {
            StorageError::ConnectionError(m) => m@,
            StorageError::QueryError(m) => m@,
            StorageError::InsertError(m) => m@,
            StorageError::DecodeError(m) => m@,
            StorageError::EncodeError(m) => m@,
        }
    }

    /// The human-readable cause carried by the error.
    pub fn message(&self) -> (m: &str)
        ensures
            m@ == self.spec_message(),
    {
        match self {
            StorageError::ConnectionError(m) => m.as_str(),
            StorageError::QueryError(m) => m.as_str(),
            StorageError::InsertError(m) => m.as_str(),
            StorageError::DecodeError(m) => m.as_str(),
            StorageError::EncodeError(m) => m.as_str(),
        }
    }
}

} // verus!
