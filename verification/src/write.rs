//! The pending payload handed to `put`.

use vstd::prelude::*;

use crate::errors::StorageError;

verus! {

/// A not-yet-finalized payload: bytes buffered by a producer that may or may
/// not have delivered them all. `finish` materializes the final bytes exactly
/// once, and fails if the source is incomplete.
pub struct CacheWrite {
    buf: Vec<u8>,
    complete: bool,
}

impl CacheWrite {
    /// The bytes buffered so far.
    pub closed spec fn payload_view(&self) -> Seq<u8> {
        self.buf@
    }

    /// Whether the producer has delivered the whole payload.
    pub closed spec fn is_complete(&self) -> bool {
        self.complete
    }

    /// A pending write whose producer has delivered all of `bytes`.
    pub fn from_bytes(bytes: Vec<u8>) -> (w: CacheWrite)
        ensures
            w.payload_view() == bytes@,
            w.is_complete(),
    {
        CacheWrite { buf: bytes, complete: true }
    }

    /// A pending write whose producer has not delivered all bytes yet;
    /// finalizing it fails.
    pub fn unfinished(bytes: Vec<u8>) -> (w: CacheWrite)
        ensures
            w.payload_view() == bytes@,
            !w.is_complete(),
    {
        CacheWrite { buf: bytes, complete: false }
    }

    /// Materializes the final payload bytes. Fails with an `EncodeError`
    /// exactly when the payload source is incomplete.
    pub fn finish(self) -> (r: Result<Vec<u8>, StorageError>)
        ensures
            if self.is_complete() {
                r matches Ok(b) && b@ == self.payload_view()
            } else {
                r matches Err(e) && e is EncodeError
            },
    {
        if self.complete {
            Ok(self.buf)
        } else {
            Err(
                StorageError::EncodeError(
                    String::from_str("payload source is incomplete or invalid"),
                ),
            )
        }
    }
}

} // verus!
