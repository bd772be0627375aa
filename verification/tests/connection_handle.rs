use mongo_cache::codec::{from_document, to_document, CacheEntry};
use mongo_cache::collection::DocumentCollection;
use mongo_cache::connection::{ConnectOutcome, ConnectionHandle, ConnectionRef};
use mongo_cache::errors::StorageError;

fn candidate(id: u64) -> ConnectionRef {
    ConnectionRef {
        conn_id: id,
        url: "mem://test".to_string(),
        database_name: "cache".to_string(),
        collection_name: "entries".to_string(),
    }
}

#[test]
fn racing_first_acquires_observe_one_identity() {
    // Three callers race on a fresh handle: each saw the slot empty, each
    // connected, and each publishes its own candidate. Every one of them must
    // come away with the connection published first.
    let mut handle = ConnectionHandle::new();
    assert!(handle.observe().is_none());

    let winner = handle
        .acquire_step(ConnectOutcome::Connected(candidate(1)))
        .unwrap();
    assert_eq!(winner.conn_id, 1);

    for loser_id in 2..=8u64 {
        let seen = handle
            .acquire_step(ConnectOutcome::Connected(candidate(loser_id)))
            .unwrap();
        assert_eq!(seen.conn_id, 1, "a later publish must not swap the connection");
    }

    let observed = handle.observe().expect("handle must stay ready");
    assert_eq!(observed.conn_id, 1);
    assert_eq!(observed.url, "mem://test");
}

#[test]
fn failed_connect_leaves_no_residual_state() {
    let mut handle = ConnectionHandle::new();
    let r = handle.acquire_step(ConnectOutcome::Failed("connection refused".to_string()));
    match r {
        Err(StorageError::ConnectionError(cause)) => assert_eq!(cause, "connection refused"),
        other => panic!("expected a connection error, got {:?}", other.map(|c| c.conn_id)),
    }
    // Not poisoned: the slot is still empty and a retry succeeds.
    assert!(handle.observe().is_none());
    let c = handle
        .acquire_step(ConnectOutcome::Connected(candidate(7)))
        .unwrap();
    assert_eq!(c.conn_id, 7);
    assert_eq!(handle.observe().expect("ready after retry").conn_id, 7);
}

#[test]
fn observe_never_connects() {
    let handle = ConnectionHandle::new();
    assert!(handle.observe().is_none());
    assert!(handle.observe().is_none());
}

#[test]
fn collection_prefers_most_recent_match() {
    let mut coll = DocumentCollection::new();
    assert_eq!(coll.len(), 0);
    coll.insert_one(to_document(CacheEntry {
        key: "k".to_string(),
        payload: vec![1],
    }));
    coll.insert_one(to_document(CacheEntry {
        key: "other".to_string(),
        payload: vec![9],
    }));
    coll.insert_one(to_document(CacheEntry {
        key: "k".to_string(),
        payload: vec![2],
    }));
    assert_eq!(coll.len(), 3);
    let found = coll.find_one(&"k".to_string()).expect("a record for k exists");
    assert_eq!(found, 2, "the most recently inserted match wins");
    let entry = from_document(coll.doc_at(found)).unwrap();
    assert_eq!(entry.payload, vec![2]);
    assert!(coll.find_one(&"absent".to_string()).is_none());
}

#[test]
fn record_document_round_trips() {
    let entry = CacheEntry {
        key: "fingerprint".to_string(),
        payload: vec![3, 1, 4, 1, 5],
    };
    let doc = to_document(CacheEntry {
        key: entry.key.clone(),
        payload: entry.payload.clone(),
    });
    let decoded = from_document(&doc).expect("a serialized record must decode");
    assert_eq!(decoded.key, entry.key);
    assert_eq!(decoded.payload, entry.payload);
}
