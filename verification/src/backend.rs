//! The document-database storage backend.
//!
//! `MongoDBCache` realizes the storage contract — `get`, `put`, `location`,
//! `current_size`, `max_size` — over a lazily-connected document collection.
//! Construction is cheap and does no I/O; the first `get` or `put`
//! establishes the connection through the shared [`ConnectionHandle`].
//! The store is insert-only: every successful `put` adds one record, and
//! `get` returns one match per the collection's lookup order.

use vstd::prelude::*;

use crate::clock::{instant_elapsed, instant_now};
use crate::codec::{
    from_document, lemma_record_round_trip, spec_decode, spec_record_doc, to_document, CacheEntry,
};
use crate::collection::{
    doc_matches, lemma_find_absent, lemma_find_after_insert, lemma_find_returns_match, spec_find,
    DocumentCollection,
};
use crate::connection::{ConnectOutcome, ConnectionHandle, ConnectionRef};
use crate::document::{Document, FieldView};
use crate::errors::StorageError;
use crate::read::{Cache, CacheRead};
use crate::write::CacheWrite;

verus! {

/// A cache backend storing records in a named collection of a document
/// database reached through `url`.
pub struct MongoDBCache {
    url: String,
    database_name: String,
    collection_name: String,
    handle: ConnectionHandle,
    collection: DocumentCollection,
    next_conn_id: u64,
}

/// Whether two backend values carry the same immutable configuration.
pub open spec fn same_config(a: &MongoDBCache, b: &MongoDBCache) -> bool {
    &&& a.url_view() == b.url_view()
    &&& a.database_view() == b.database_view()
    &&& a.collection_view() == b.collection_view()
}

/// Maps the result of a collection lookup into the cache-level outcome: no
/// document is a miss; a well-shaped document is a hit whose reader sits at
/// offset 0 over the record's payload; a malformed document is stored
/// corruption, reported as a `DecodeError` — never conflated with a miss.
pub fn lookup_to_cache(found: Option<&Document>) -> (r: Result<Cache, StorageError>)
    ensures
        match found {
            None => r == Ok::<Cache, StorageError>(Cache::Miss),
            Some(d) => match spec_decode(d@) {
                Some(kp) => r matches Ok(Cache::Hit(rd)) && rd.data_view() == kp.1
                    && rd.pos_view() == 0 && rd.wf(),
                None => r matches Err(e) && e is DecodeError,
            },
        },
{
    match found {
        None => Ok(Cache::Miss),
        Some(d) => match from_document(d) {
            Ok(entry) => match CacheRead::from(entry.payload) {
                Ok(rd) => Ok(Cache::Hit(rd)),
                Err(e) => Err(e),
            },
            Err(e) => Err(e),
        },
    }
}

impl MongoDBCache {
    /// The connection URL the backend was configured with.
    pub closed spec fn url_view(&self) -> Seq<char> {
        self.url@
    }

    /// The database name the backend was configured with.
    pub closed spec fn database_view(&self) -> Seq<char> {
        self.database_name@
    }

    /// The collection name the backend was configured with.
    pub closed spec fn collection_view(&self) -> Seq<char> {
        self.collection_name@
    }

    /// The stored documents, in insertion order.
    pub closed spec fn docs(&self) -> Seq<Seq<FieldView>> {
        self.collection@
    }

    /// The published connection, if one has been established.
    pub closed spec fn conn(&self) -> Option<ConnectionRef> {
        self.handle@
    }

    /// Whether the lazy connection has been established.
    pub open spec fn connected(&self) -> bool {
        self.conn() is Some
    }

    /// A published connection always points at the configured endpoint,
    /// database and collection.
    pub open spec fn wf(&self) -> bool {
        match self.conn() {
            Some(c) => c.url@ == self.url_view() && c.database_name@ == self.database_view()
                && c.collection_name@ == self.collection_view(),
            None => true,
        }
    }

    /// A backend over the given endpoint, database and collection. Cheap:
    /// no connection is attempted until the first `get` or `put`.
    pub fn new(url: &str, database_name: &str, collection_name: &str) -> (r: Result<
        MongoDBCache,
        StorageError,
    >)
        ensures
            r matches Ok(c) && c.url_view() == url@ && c.database_view() == database_name@
                && c.collection_view() == collection_name@ && !c.connected() && c.docs()
                == Seq::<Seq<FieldView>>::empty() && c.wf(),
    {
        Ok(
            MongoDBCache {
                url: String::from_str(url),
                database_name: String::from_str(database_name),
                collection_name: String::from_str(collection_name),
                handle: ConnectionHandle::new(),
                collection: DocumentCollection::new(),
                next_conn_id: 0,
            },
        )
    }

    /// The usable connection, establishing it on first use. An established
    /// connection is reused as it is: its identity never changes.
    fn get_collection(&mut self) -> (r: Result<ConnectionRef, StorageError>)
        requires
            old(self).wf(),
        ensures
            final(self).wf(),
            same_config(old(self), final(self)),
            final(self).docs() == old(self).docs(),
            final(self).connected(),
            r matches Ok(c) && final(self).conn() == Some(c),
            old(self).connected() ==> final(self).conn() == old(self).conn(),
    {
        match self.handle.observe() {
            Some(c) => Ok(c),
            None => {
                // The in-memory endpoint: establishment always succeeds and
                // yields a fresh connection identity.
                let candidate = ConnectionRef {
                    conn_id: self.next_conn_id,
                    url: self.url.clone(),
                    database_name: self.database_name.clone(),
                    collection_name: self.collection_name.clone(),
                };
                if self.next_conn_id < u64::MAX {
                    self.next_conn_id = self.next_conn_id + 1;
                }
                self.handle.acquire_step(ConnectOutcome::Connected(candidate))
            },
        }
    }

    /// Looks the key up and returns a hit over the stored payload, a miss if
    /// no record has the key, or a `DecodeError` if the record found cannot
    /// be parsed into the expected shape. Read-only: the store is unchanged.
    pub fn get(&mut self, key: &str) -> (r: Result<Cache, StorageError>)
        requires
            old(self).wf(),
        ensures
            final(self).wf(),
            same_config(old(self), final(self)),
            final(self).docs() == old(self).docs(),
            final(self).connected(),
            old(self).connected() ==> final(self).conn() == old(self).conn(),
            match spec_find(old(self).docs(), key@) {
                None => r == Ok::<Cache, StorageError>(Cache::Miss),
                Some(i) => match spec_decode(old(self).docs()[i]) {
                    Some(kp) => r matches Ok(Cache::Hit(rd)) && rd.data_view() == kp.1
                        && rd.pos_view() == 0 && rd.wf(),
                    None => r matches Err(e) && e is DecodeError,
                },
            },
    {
        let _conn = match self.get_collection() {
            Ok(c) => c,
            Err(e) => {
                return Err(e);
            },
        };
        let key_s = String::from_str(key);
        match self.collection.find_one(&key_s) {
            None => lookup_to_cache(None),
            Some(i) => {
                proof {
                    lemma_find_returns_match(self.collection@, key_s@, i as int);
                }
                lookup_to_cache(Some(self.collection.doc_at(i)))
            },
        }
    }

    /// Stores one new record `(key, finalized payload)` — an insert, never an
    /// update, so records for one key accumulate — and reports the elapsed
    /// wall-clock time of the whole operation. Fails with an `EncodeError`,
    /// storing nothing, exactly when finalizing the payload fails.
    pub fn put(&mut self, key: &str, entry: CacheWrite) -> (r: Result<
        std::time::Duration,
        StorageError,
    >)
        requires
            old(self).wf(),
        ensures
            final(self).wf(),
            same_config(old(self), final(self)),
            final(self).connected(),
            old(self).connected() ==> final(self).conn() == old(self).conn(),
            if entry.is_complete() {
                (r matches Ok(_)) && final(self).docs() == old(self).docs().push(
                    spec_record_doc(key@, entry.payload_view()),
                )
            } else {
                (r matches Err(e) && e is EncodeError) && final(self).docs() == old(self).docs()
            },
    {
        let start = instant_now();
        let _conn = match self.get_collection() {
            Ok(c) => c,
            Err(e) => {
                return Err(e);
            },
        };
        let bytes = match entry.finish() {
            Ok(b) => b,
            Err(e) => {
                return Err(e);
            },
        };
        let doc = to_document(CacheEntry { key: String::from_str(key), payload: bytes });
        self.collection.insert_one(doc);
        Ok(instant_elapsed(&start))
    }

    /// A human-readable descriptor of the endpoint, database and collection,
    /// for diagnostics only: nothing is promised of the format's stability.
    pub fn location(&self) -> (r: String)
        ensures
            r@ == "MongoDB: "@ + self.url_view() + ", database: "@ + self.database_view()
                + ", collection: "@ + self.collection_view(),
    {
        let mut s = String::from_str("MongoDB: ");
        s.append(self.url.as_str());
        s.append(", database: ");
        s.append(self.database_name.as_str());
        s.append(", collection: ");
        s.append(self.collection_name.as_str());
        s
    }

    /// This backend keeps no local size accounting: always `None`
    /// (unknown), never zero and never a bound, whatever was stored.
    pub fn current_size(&self) -> (r: Result<Option<u64>, StorageError>)
        ensures
            r == Ok::<Option<u64>, StorageError>(None),
    {
        Ok(None)
    }

    /// This backend reports no capacity bound: always `None` (unknown),
    /// whatever was stored.
    pub fn max_size(&self) -> (r: Result<Option<u64>, StorageError>)
        ensures
            r == Ok::<Option<u64>, StorageError>(None),
    {
        Ok(None)
    }
}

/// A stored record's key field matches exactly its own key: looking up any
/// other key never finds it.
pub proof fn lemma_record_doc_matches(k: Seq<char>, p: Seq<u8>, key: Seq<char>)
    ensures
        doc_matches(spec_record_doc(k, p), key) <==> k == key,
{
    let doc = spec_record_doc(k, p);
    assert(doc[0].name == "key"@);
}

/// A key never inserted always misses: a store holding only records that
/// were put for other keys finds nothing for `key`, so `get` reports a miss.
pub proof fn lemma_never_inserted_misses(
    docs: Seq<Seq<FieldView>>,
    entries: Seq<(Seq<char>, Seq<u8>)>,
    key: Seq<char>,
)
    requires
        docs.len() == entries.len(),
        forall|i: int| 0 <= i < docs.len() ==> docs[i] == spec_record_doc(
            entries[i].0,
            entries[i].1,
        ),
        forall|i: int| 0 <= i < entries.len() ==> entries[i].0 != key,
    ensures
        spec_find(docs, key) is None,
{
    assert forall|i: int| 0 <= i < docs.len() implies !doc_matches(docs[i], key) by {
        lemma_record_doc_matches(entries[i].0, entries[i].1, key);
    }
    lemma_find_absent(docs, key);
}

/// Round-trip fidelity: whatever the store held before, after
/// `put(key, payload)` a `get(key)` finds the record just stored and its
/// payload decodes byte for byte, so the hit's reader yields exactly
/// `payload`.
pub proof fn lemma_put_then_get(docs: Seq<Seq<FieldView>>, key: Seq<char>, payload: Seq<u8>)
    ensures
        spec_find(docs.push(spec_record_doc(key, payload)), key) == Some(docs.len() as int),
        spec_decode(spec_record_doc(key, payload)) == Some((key, payload)),
{
    lemma_record_doc_matches(key, payload, key);
    lemma_find_after_insert(docs, spec_record_doc(key, payload), key);
    lemma_record_round_trip(key, payload);
}

/// Puts are not idempotent at the storage level: two puts for one key leave
/// two distinct records, and a get then yields exactly one of the two
/// payloads — this backend's lookup order picks the second — never a merge
/// of both.
pub proof fn lemma_two_puts_then_get(
    docs: Seq<Seq<FieldView>>,
    key: Seq<char>,
    p1: Seq<u8>,
    p2: Seq<u8>,
)
    ensures
        docs.push(spec_record_doc(key, p1)).push(spec_record_doc(key, p2)).len() == docs.len() + 2,
        spec_find(docs.push(spec_record_doc(key, p1)).push(spec_record_doc(key, p2)), key) == Some(
            docs.len() as int + 1,
        ),
        spec_decode(
            docs.push(spec_record_doc(key, p1)).push(spec_record_doc(key, p2))[docs.len() as int + 1],
        ) == Some((key, p2)),
{
    lemma_record_doc_matches(key, p2, key);
    lemma_find_after_insert(docs.push(spec_record_doc(key, p1)), spec_record_doc(key, p2), key);
    lemma_record_round_trip(key, p2);
}

} // verus!
