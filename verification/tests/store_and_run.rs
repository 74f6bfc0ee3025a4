use std::collections::HashMap;

use osm_extractor::backend::{Ownerships, Update};
use osm_extractor::entities::{City, PointEntity, Road, Tag};
use osm_extractor::errors::{ErrorKind, ErrorSink};
use osm_extractor::extract::extract_points;
use osm_extractor::run::{ChunkOutcome, RetryDecision, RetryPolicy, RunAggregator, WriteStats};
use osm_extractor::store::{apply_city_writes, road_nodes_json};

fn city(id: i64, name: &str, pop: Option<i64>) -> City {
    City { id, name: Some(name.to_string()), nano_lat: id * 10, nano_lon: id * 20, population: pop }
}

#[test]
fn upserts_are_idempotent_on_an_empty_store() {
    let writes = vec![city(1, "A", None), city(2, "B", Some(7)), city(1, "C", None)];
    let mut once: HashMap<i64, City> = HashMap::new();
    apply_city_writes(&mut once, writes.clone());
    let mut twice: HashMap<i64, City> = HashMap::new();
    apply_city_writes(&mut twice, writes.clone());
    apply_city_writes(&mut twice, writes);
    assert_eq!(once.len(), 2);
    assert_eq!(twice.len(), 2);
    for (k, v) in once.iter() {
        let w = twice.get(k).expect("same keys");
        assert_eq!(v.name, w.name);
        assert_eq!(v.population, w.population);
    }
    // Last write wins for a repeated id.
    assert_eq!(once.get(&1).expect("bound").name.as_deref(), Some("C"));
}

#[test]
fn rerun_is_safe_against_a_partially_populated_store() {
    let mut store: HashMap<i64, City> = HashMap::new();
    store.insert(5, city(5, "Stale", None));
    store.insert(1, city(1, "Old", None));
    let writes = vec![city(1, "Fresh", Some(3))];
    apply_city_writes(&mut store, writes.clone());
    apply_city_writes(&mut store, writes);
    assert_eq!(store.len(), 2);
    assert_eq!(store.get(&1).expect("bound").name.as_deref(), Some("Fresh"));
    assert_eq!(store.get(&5).expect("bound").name.as_deref(), Some("Stale"));
}

#[test]
fn extraction_is_deterministic_across_runs() {
    let ps = vec![PointEntity {
        id: 3,
        nano_lat: 9,
        nano_lon: 8,
        tags: vec![
            Tag { key: "place".to_string(), value: "town".to_string() },
            Tag { key: "name".to_string(), value: "Gamma".to_string() },
        ],
    }];
    let a = extract_points(&ps);
    let b = extract_points(&ps);
    assert_eq!(a.len(), b.len());
    assert_eq!(a[0].id, b[0].id);
    assert_eq!(a[0].name, b[0].name);
    assert_eq!(a[0].population, b[0].population);
}

#[test]
fn road_nodes_serialize_as_a_json_array() {
    let r = Road { id: 9, name: None, nodes: vec![1, 2, 3] };
    assert_eq!(road_nodes_json(&r).expect("serializable"), "[1,2,3]");
    let empty = Road { id: 10, name: None, nodes: Vec::new() };
    assert_eq!(road_nodes_json(&empty).expect("serializable"), "[]");
    let signed = Road { id: 11, name: None, nodes: vec![-5, 0, i64::MAX, i64::MIN] };
    assert_eq!(
        road_nodes_json(&signed).expect("serializable"),
        "[-5,0,9223372036854775807,-9223372036854775808]",
    );
}

#[test]
fn error_sink_counts_per_kind() {
    let mut sink = ErrorSink::new();
    sink.record(1, ErrorKind::Decode, "bad payload".to_string());
    sink.record(1, ErrorKind::Decode, "bad payload again".to_string());
    sink.record(2, ErrorKind::Pool, "no connection".to_string());
    sink.record(3, ErrorKind::Store, "constraint".to_string());
    sink.record(3, ErrorKind::Serialization, "unencodable".to_string());
    assert_eq!(sink.count(ErrorKind::Decode), 2);
    assert_eq!(sink.count(ErrorKind::Pool), 1);
    assert_eq!(sink.count(ErrorKind::Store), 1);
    assert_eq!(sink.count(ErrorKind::Serialization), 1);
    assert_eq!(sink.count(ErrorKind::Framing), 0);
    assert_eq!(sink.retained.len(), 5);
    assert_eq!(sink.retained[0].chunk, 1);
    assert_eq!(sink.retained[0].message, "bad payload");
}

#[test]
fn error_sink_counts_stay_exact_past_the_retention_cap() {
    let mut sink = ErrorSink::new();
    for i in 0..1500u64 {
        sink.record(i, ErrorKind::Decode, "bad".to_string());
    }
    assert_eq!(sink.count(ErrorKind::Decode), 1500);
    assert_eq!(sink.retained.len(), 1024);
}

#[test]
fn aggregator_folds_outcomes_behind_the_barrier() {
    let mut agg = RunAggregator::new(4);
    assert!(agg.has_capacity());
    agg.dispatch();
    agg.dispatch();
    agg.dispatch();
    assert!(!agg.is_complete());
    agg.complete(ChunkOutcome::Skipped);
    agg.complete(ChunkOutcome::DecodeFailed);
    assert!(!agg.is_complete());
    let mut w = WriteStats::start(2);
    w.note_written();
    w.note_store_error();
    assert!(w.fully_accounted());
    agg.complete(ChunkOutcome::Written(w));
    assert!(agg.is_complete());
    let rep = agg.report();
    assert_eq!(rep.chunks, 3);
    assert_eq!(rep.extracted, 2);
    assert_eq!(rep.written, 1);
    assert_eq!(rep.decode_errors, 1);
    assert_eq!(rep.store_errors, 1);
    assert_eq!(rep.pool_errors, 0);
    assert_eq!(rep.serialization_errors, 0);
}

#[test]
fn a_failed_chunk_does_not_disturb_its_siblings() {
    // The same run with and without one corrupted chunk in the middle:
    // only the decode-error count differs.
    let mut w1 = WriteStats::start(1);
    w1.note_written();
    let mut w2 = WriteStats::start(3);
    w2.note_written();
    w2.note_written();
    w2.note_pool_error();
    let mut with_bad = RunAggregator::new(8);
    for _ in 0..3 {
        with_bad.dispatch();
    }
    with_bad.complete(ChunkOutcome::Written(w1));
    with_bad.complete(ChunkOutcome::DecodeFailed);
    with_bad.complete(ChunkOutcome::Written(w2));
    let mut without_bad = RunAggregator::new(8);
    for _ in 0..2 {
        without_bad.dispatch();
    }
    without_bad.complete(ChunkOutcome::Written(w1));
    without_bad.complete(ChunkOutcome::Written(w2));
    let a = with_bad.report();
    let b = without_bad.report();
    assert_eq!(a.extracted, b.extracted);
    assert_eq!(a.written, b.written);
    assert_eq!(a.pool_errors, b.pool_errors);
    assert_eq!(a.store_errors, b.store_errors);
    assert_eq!(a.serialization_errors, b.serialization_errors);
    assert_eq!(a.decode_errors, b.decode_errors + 1);
}

#[test]
fn capacity_bounds_in_flight_pipelines() {
    let mut agg = RunAggregator::new(2);
    agg.dispatch();
    assert!(agg.has_capacity());
    agg.dispatch();
    assert!(!agg.has_capacity());
    agg.complete(ChunkOutcome::Skipped);
    assert!(agg.has_capacity());
}

#[test]
fn retries_back_off_and_then_abandon() {
    let p = RetryPolicy { max_attempts: 4, base_delay_ms: 100, max_delay_ms: 450 };
    assert_eq!(p.decide(0), RetryDecision::RetryAfterMs(100));
    assert_eq!(p.decide(1), RetryDecision::RetryAfterMs(200));
    assert_eq!(p.decide(2), RetryDecision::RetryAfterMs(400));
    assert_eq!(p.decide(3), RetryDecision::RetryAfterMs(450));
    assert_eq!(p.decide(4), RetryDecision::Abandon);
    assert_eq!(p.decide(40), RetryDecision::Abandon);
}

#[test]
fn ownership_bindings_replace_per_tile() {
    let mut o = Ownerships::new();
    assert_eq!(o.get_bindings().len(), 0);
    o.set_binding(7, "fr".to_string());
    o.set_binding(7, "de".to_string());
    o.set_binding(9, "fr".to_string());
    assert_eq!(o.get_bindings().len(), 2);
    assert_eq!(o.get_bindings().get(&7).map(String::as_str), Some("de"));
}

#[test]
fn update_carries_its_fields() {
    let u = Update::new(3, Some("fr".to_string()), "de".to_string());
    assert_eq!(u.tile, 3);
    assert_eq!(u.previous_country.as_deref(), Some("fr"));
    assert_eq!(u.new_country, "de");
}
