use mongo_cache::backend::{lookup_to_cache, MongoDBCache};
use mongo_cache::document::{Document, FieldValue};
use mongo_cache::errors::StorageError;
use mongo_cache::read::Cache;
use mongo_cache::write::CacheWrite;

fn hit_bytes(outcome: Cache) -> Vec<u8> {
    match outcome {
        Cache::Hit(reader) => {
            assert_eq!(reader.position(), 0);
            reader.bytes()
        }
        Cache::Miss => panic!("expected a hit"),
    }
}

#[test]
fn get_never_inserted_misses() {
    let mut backend = MongoDBCache::new("mem://test", "cache", "entries").unwrap();
    assert!(matches!(backend.get("never-stored"), Ok(Cache::Miss)));
    backend
        .put("other", CacheWrite::from_bytes(vec![9, 9]))
        .unwrap();
    assert!(matches!(backend.get("never-stored"), Ok(Cache::Miss)));
}

#[test]
fn put_then_get_round_trips_bytes() {
    let mut backend = MongoDBCache::new("mem://test", "cache", "entries").unwrap();
    let payload = vec![0u8, 1, 2, 3, 254, 255];
    backend
        .put("artifact", CacheWrite::from_bytes(payload.clone()))
        .unwrap();
    let outcome = backend.get("artifact").unwrap();
    assert_eq!(hit_bytes(outcome), payload);
}

#[test]
fn reader_yields_payload_byte_by_byte() {
    let mut backend = MongoDBCache::new("mem://test", "cache", "entries").unwrap();
    backend
        .put("k", CacheWrite::from_bytes(vec![10, 20, 30]))
        .unwrap();
    match backend.get("k").unwrap() {
        Cache::Hit(mut reader) => {
            assert_eq!(reader.len(), 3);
            assert_eq!(reader.read_byte(), Some(10));
            assert_eq!(reader.remaining(), vec![20, 30]);
            assert_eq!(reader.read_byte(), Some(20));
            assert_eq!(reader.read_byte(), Some(30));
            assert_eq!(reader.read_byte(), None);
            assert_eq!(reader.position(), 3);
        }
        Cache::Miss => panic!("expected a hit"),
    }
}

#[test]
fn put_is_not_idempotent_but_never_merges() {
    let mut backend = MongoDBCache::new("mem://test", "cache", "entries").unwrap();
    let p1 = vec![1u8, 1, 1];
    let p2 = vec![2u8, 2];
    backend
        .put("k", CacheWrite::from_bytes(p1.clone()))
        .unwrap();
    backend
        .put("k", CacheWrite::from_bytes(p2.clone()))
        .unwrap();
    let bytes = hit_bytes(backend.get("k").unwrap());
    assert!(bytes == p1 || bytes == p2, "must be one payload, not a merge");
}

#[test]
fn sizes_always_resolve_to_none() {
    let mut backend = MongoDBCache::new("mem://test", "cache", "entries").unwrap();
    assert_eq!(backend.current_size().unwrap(), None);
    assert_eq!(backend.max_size().unwrap(), None);
    for i in 0..10u8 {
        backend
            .put("k", CacheWrite::from_bytes(vec![i; 100]))
            .unwrap();
    }
    assert_eq!(backend.current_size().unwrap(), None);
    assert_eq!(backend.max_size().unwrap(), None);
}

#[test]
fn tampered_record_is_decode_error_not_miss() {
    // A record whose payload blob carries a subtype the record shape does
    // not allow: structurally invalid, so the lookup surfaces corruption.
    let mut tampered = Document::new();
    tampered.push_field("key".to_string(), FieldValue::Text("k".to_string()));
    tampered.push_field(
        "cache".to_string(),
        FieldValue::Blob {
            subtype: 0x80,
            bytes: vec![1, 2, 3],
        },
    );
    let r = lookup_to_cache(Some(&tampered));
    assert!(matches!(r, Err(StorageError::DecodeError(_))));
    // Absence is a different outcome entirely.
    assert!(matches!(lookup_to_cache(None), Ok(Cache::Miss)));
}

#[test]
fn schema_incompatible_record_is_decode_error() {
    // A document missing the binary field altogether.
    let mut bad = Document::new();
    bad.push_field("key".to_string(), FieldValue::Text("k".to_string()));
    assert!(matches!(
        lookup_to_cache(Some(&bad)),
        Err(StorageError::DecodeError(_))
    ));
    // A document whose key field is not text.
    let mut bad2 = Document::new();
    bad2.push_field(
        "key".to_string(),
        FieldValue::Blob {
            subtype: 0,
            bytes: vec![],
        },
    );
    bad2.push_field(
        "cache".to_string(),
        FieldValue::Blob {
            subtype: 0,
            bytes: vec![1],
        },
    );
    assert!(matches!(
        lookup_to_cache(Some(&bad2)),
        Err(StorageError::DecodeError(_))
    ));
}

#[test]
fn example_scenario() {
    let mut backend = MongoDBCache::new("mem://test", "cache", "entries").unwrap();
    assert!(matches!(backend.get("k1"), Ok(Cache::Miss)));
    let elapsed = backend
        .put("k1", CacheWrite::from_bytes(vec![1, 2, 3]))
        .unwrap();
    assert!(elapsed >= std::time::Duration::ZERO);
    assert_eq!(hit_bytes(backend.get("k1").unwrap()), vec![1, 2, 3]);
}

#[test]
fn incomplete_payload_is_encode_error_and_stores_nothing() {
    let mut backend = MongoDBCache::new("mem://test", "cache", "entries").unwrap();
    let r = backend.put("k", CacheWrite::unfinished(vec![1, 2]));
    assert!(matches!(r, Err(StorageError::EncodeError(_))));
    assert!(matches!(backend.get("k"), Ok(Cache::Miss)));
    // The failure is local to the one operation: a later put succeeds.
    backend.put("k", CacheWrite::from_bytes(vec![7])).unwrap();
    assert_eq!(hit_bytes(backend.get("k").unwrap()), vec![7]);
}

#[test]
fn location_describes_the_configuration() {
    let backend = MongoDBCache::new("mem://test", "cache", "entries").unwrap();
    assert_eq!(
        backend.location(),
        "MongoDB: mem://test, database: cache, collection: entries"
    );
}

#[test]
fn error_messages_carry_their_cause() {
    let errors = [
        StorageError::ConnectionError("no route".to_string()),
        StorageError::QueryError("timed out".to_string()),
        StorageError::InsertError("write refused".to_string()),
        StorageError::DecodeError("bad shape".to_string()),
        StorageError::EncodeError("incomplete".to_string()),
    ];
    let causes = ["no route", "timed out", "write refused", "bad shape", "incomplete"];
    for (e, cause) in errors.iter().zip(causes.iter()) {
        assert_eq!(&e.message(), cause);
    }
}
