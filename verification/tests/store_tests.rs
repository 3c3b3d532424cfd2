use creature_agent::store::{LongTermMemoryStore, MetaData, Metric};

#[test]
fn identifiers_start_at_zero_and_increase_by_one() {
    let mut store = LongTermMemoryStore::new("long_memory".to_string(), 384);
    let meta = MetaData::with_timestamp("t0".to_string(), "tester".to_string());
    let first = store.begin_upsert("hello".to_string(), meta);
    assert_eq!(first.id, 0);
    store.commit_upsert(&first);

    let meta = MetaData::with_timestamp("t1".to_string(), "tester".to_string());
    let second = store.begin_upsert("again".to_string(), meta);
    assert_eq!(second.id, 1);
    store.commit_upsert(&second);

    let meta = MetaData::with_timestamp("t2".to_string(), "tester".to_string());
    let third = store.begin_upsert("more".to_string(), meta);
    assert_eq!(third.id, 2);
}

#[test]
fn a_failed_upsert_does_not_advance_the_counter() {
    let mut store = LongTermMemoryStore::new("long_memory".to_string(), 384);
    let meta = MetaData::with_timestamp("t0".to_string(), "tester".to_string());
    let failed = store.begin_upsert("dropped".to_string(), meta);
    assert_eq!(failed.id, 0);
    // The embedding or the database call failed: the record is not committed.
    let meta = MetaData::with_timestamp("t1".to_string(), "tester".to_string());
    let retried = store.begin_upsert("kept".to_string(), meta);
    assert_eq!(retried.id, 0);
    store.commit_upsert(&retried);
    let meta = MetaData::with_timestamp("t2".to_string(), "tester".to_string());
    let next = store.begin_upsert("next".to_string(), meta);
    assert_eq!(next.id, 1);
}

#[test]
fn reset_request_carries_the_startup_dimension_and_cosine_metric() {
    let dimension = 384;
    let store = LongTermMemoryStore::new("long_memory".to_string(), dimension);
    let req = store.reset_request();
    assert_eq!(req.collection, "long_memory");
    assert_eq!(req.dimension, dimension);
    assert_eq!(req.metric, Metric::Cosine);
}

#[test]
fn pending_records_carry_the_collection_dimension() {
    let store = LongTermMemoryStore::new("long_memory".to_string(), 384);
    let meta = MetaData::with_timestamp("t0".to_string(), "tester".to_string());
    let rec = store.begin_upsert("hello".to_string(), meta);
    assert_eq!(rec.collection, "long_memory");
    assert_eq!(rec.dimension, 384);
    assert_eq!(rec.text, "hello");
    assert_eq!(rec.meta.author, "tester");
}

#[test]
fn search_request_carries_query_limit_and_flags() {
    let store = LongTermMemoryStore::new("long_memory".to_string(), 384);
    let req = store.search_request("what was said".to_string(), 5, None);
    assert_eq!(req.collection, "long_memory");
    assert_eq!(req.query, "what was said");
    assert_eq!(req.limit, 5);
    assert_eq!(req.filter, None);
    assert!(req.with_payload);
    assert!(req.with_vectors);

    let filtered = store.search_request(
        "who spoke".to_string(),
        1,
        Some(("author".to_string(), "tester".to_string())),
    );
    assert_eq!(
        filtered.filter,
        Some(("author".to_string(), "tester".to_string()))
    );
}

#[test]
fn payload_holds_datetime_and_author_pairs() {
    let meta = MetaData::with_timestamp("2023-07-01T12:00:00.000".to_string(), "tester".to_string());
    let payload = meta.to_payload();
    assert_eq!(payload.len(), 2);
    assert_eq!(payload[0].0, "datetime");
    assert_eq!(payload[0].1, "2023-07-01T12:00:00.000");
    assert_eq!(payload[1].0, "author");
    assert_eq!(payload[1].1, "tester");
}

#[test]
fn fresh_metadata_is_stamped_with_a_calendar_timestamp() {
    let meta = MetaData::new("tester".to_string());
    assert_eq!(meta.author, "tester");
    // %Y-%m-%dT%H:%M:%S%.3f renders 23 characters for present-day years.
    assert_eq!(meta.timestamp.len(), 23);
    assert_eq!(meta.timestamp.as_bytes()[10], b'T');
}
