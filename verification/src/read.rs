//! Lookup outcomes and the byte-stream reader handed out on a hit.

use vstd::prelude::*;

use crate::document::copy_bytes;
use crate::errors::StorageError;

verus! {

/// A byte-stream reader over a record's payload, positioned at offset 0 when
/// created. Reading advances the position; the underlying bytes never change.
pub struct CacheRead {
    data: Vec<u8>,
    pos: usize,
}

impl CacheRead {
    /// The payload bytes the reader ranges over.
    pub closed spec fn data_view(&self) -> Seq<u8> {
        self.data@
    }

    /// The current read position.
    pub closed spec fn pos_view(&self) -> int {
        self.pos as int
    }

    /// The reader never points past the end of its payload.
    pub open spec fn wf(&self) -> bool {
        0 <= self.pos_view() <= self.data_view().len()
    }

    /// A reader over `bytes`, positioned at offset 0.
    pub fn from(bytes: Vec<u8>) -> (r: Result<CacheRead, StorageError>)
        ensures
            r matches Ok(rd) && rd.data_view() == bytes@ && rd.pos_view() == 0 && rd.wf(),
    {
        Ok(CacheRead { data: bytes, pos: 0 })
    }

    /// How many payload bytes the reader ranges over in all.
    pub fn len(&self) -> (n: usize)
        ensures
            n == self.data_view().len(),
    {
        self.data.len()
    }

    /// The current read position.
    pub fn position(&self) -> (p: usize)
        ensures
            p == self.pos_view(),
    {
        self.pos
    }

    /// Reads the next byte and advances, or reports the end of the payload.
    pub fn read_byte(&mut self) -> (r: Option<u8>)
        requires
            old(self).wf(),
        ensures
            final(self).wf(),
            final(self).data_view() == old(self).data_view(),
            if old(self).pos_view() < old(self).data_view().len() {
                r == Some(old(self).data_view()[old(self).pos_view()]) && final(self).pos_view()
                    == old(self).pos_view() + 1
            } else {
                r is None && final(self).pos_view() == old(self).pos_view()
            },
    {
        if self.pos < self.data.len() {
            let b = self.data[self.pos];
            self.pos = self.pos + 1;
            Some(b)
        } else {
            None
        }
    }

    /// All bytes from the current position to the end, without advancing.
    pub fn remaining(&self) -> (r: Vec<u8>)
        requires
            self.wf(),
        ensures
            r@ == self.data_view().skip(self.pos_view()),
    {
        let mut r: Vec<u8> = Vec::new();
        let mut i: usize = self.pos;
        while i < self.data.len()
            invariant
                self.pos <= i <= self.data.len(),
                r@ == self.data@.subrange(self.pos as int, i as int),
            decreases self.data.len() - i,
        {
            r.push(self.data[i]);
            proof {
                assert(r@ =~= self.data@.subrange(self.pos as int, i as int + 1));
            }
            i += 1;
        }
        proof {
            assert(r@ =~= self.data_view().skip(self.pos_view()));
        }
        r
    }

    /// The payload as a whole, regardless of the current position.
    pub fn bytes(&self) -> (r: Vec<u8>)
        ensures
            r@ == self.data_view(),
    {
        copy_bytes(&self.data)
    }
}

/// The outcome of a cache lookup. A miss is a successful outcome, not an
/// error: the artifact is simply absent.
pub enum Cache {
    /// The artifact was found; the reader is positioned at offset 0 over the
    /// record's payload.
    Hit(CacheRead),
    /// No record exists for the key.
    Miss,
}

} // verus!
