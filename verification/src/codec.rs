//! Translation between cache entries and their stored document shape.
//!
//! A record is stored as a document of two fields: `key`, the text
//! fingerprint, and `cache`, the opaque payload as a generic binary blob.
//! Decoding is exact: it succeeds if and only if the document carries both
//! fields with those types and the generic subtype tag, and a failure is a
//! [`StorageError::DecodeError`] — never a miss.

use vstd::prelude::*;

use crate::document::{
    copy_bytes, spec_lookup, Document, FieldValue, FieldView, ValueView, SUBTYPE_GENERIC,
};
use crate::errors::StorageError;

verus! {

/// One cache record: an opaque string key and an opaque binary payload.
/// The backend never inspects the payload's contents.
pub struct CacheEntry {
    pub key: String,
    pub payload: Vec<u8>,
}

/// The document shape that stores the record `(key, payload)`.
pub open spec fn spec_record_doc(key: Seq<char>, payload: Seq<u8>) -> Seq<FieldView> {
    seq![
        FieldView { name: "key"@, value: ValueView::Text(key) },
        FieldView {
            name: "cache"@,
            value: ValueView::Blob { subtype: SUBTYPE_GENERIC as u8, bytes: payload },
        },
    ]
}

/// The record a document decodes to, if it has the expected shape: a text
/// field `key` and a generic binary field `cache`. Extra fields are ignored.
pub open spec fn spec_decode(doc: Seq<FieldView>) -> Option<(Seq<char>, Seq<u8>)> {
    match spec_lookup(doc, "key"@) {
        Some(ValueView::Text(k)) => match spec_lookup(doc, "cache"@) {
            Some(ValueView::Blob { subtype, bytes }) => if subtype == SUBTYPE_GENERIC {
                Some((k, bytes))
            } else {
                None
            },
            _ => None,
        },
        _ => None,
    }
}

/// Serializes a record into its stored document shape.
pub fn to_document(entry: CacheEntry) -> (d: Document)
    ensures
        d@ == spec_record_doc(entry.key@, entry.payload@),
{
    let mut d = Document::new();
    d.push_field(String::from_str("key"), FieldValue::Text(entry.key));
    d.push_field(
        String::from_str("cache"),
        FieldValue::Blob { subtype: SUBTYPE_GENERIC, bytes: entry.payload },
    );
    proof {
        assert(d@ =~= spec_record_doc(entry.key@, entry.payload@));
    }
    d
}

/// Parses a stored document back into a record. Succeeds exactly on
/// documents of the expected shape; anything else is stored corruption and
/// reports a `DecodeError`.
pub fn from_document(d: &Document) -> (r: Result<CacheEntry, StorageError>)
    ensures
        match r {
            Ok(entry) => spec_decode(d@) == Some((entry.key@, entry.payload@)),
            Err(e) => spec_decode(d@) is None && e is DecodeError,
        },
{
    let key_name = String::from_str("key");
    let cache_name = String::from_str("cache");
    let key: String = match d.lookup(&key_name) {
        Some(FieldValue::Text(k)) => k.clone(),
        _ => {
            return Err(
                StorageError::DecodeError(
                    String::from_str("record has no text field named key"),
                ),
            );
        },
    };
    match d.lookup(&cache_name) {
        Some(FieldValue::Blob { subtype, bytes }) => {
            if *subtype == SUBTYPE_GENERIC {
                Ok(CacheEntry { key, payload: copy_bytes(bytes) })
            } else {
                Err(
                    StorageError::DecodeError(
                        String::from_str("record blob has an unexpected subtype tag"),
                    ),
                )
            }
        },
        _ => Err(
            StorageError::DecodeError(
                String::from_str("record has no binary field named cache"),
            ),
        ),
    }
}

/// Round-trip fidelity of the record shape: a serialized record decodes to
/// exactly the key and payload it was built from, byte for byte.
pub proof fn lemma_record_round_trip(key: Seq<char>, payload: Seq<u8>)
    ensures
        spec_decode(spec_record_doc(key, payload)) == Some((key, payload)),
{
    reveal_strlit("key");
    reveal_strlit("cache");
    let doc = spec_record_doc(key, payload);
    assert(doc.len() == 2);
    assert(doc[0].name == "key"@);
    assert("key"@ != "cache"@);
    assert(spec_lookup(doc, "key"@) == Some(ValueView::Text(key)));
    let rest = doc.drop_first();
    assert(rest.len() == 1);
    assert(rest[0] == doc[1]);
    assert(spec_lookup(rest, "cache"@) == Some(
        ValueView::Blob { subtype: SUBTYPE_GENERIC as u8, bytes: payload },
    ));
    assert(spec_lookup(doc, "cache"@) == Some(
        ValueView::Blob { subtype: SUBTYPE_GENERIC as u8, bytes: payload },
    ));
}

} // verus!
