use chain_sync::store::KeyedStore;
use chain_sync::sync::{diff_strategy, query_text, sink_write_of, DiffStrategy, RecordKind};
use chain_sync::supabase::SinkWrite;

#[test]
fn store_insert_get_and_len() {
    let mut store: KeyedStore<u32> = KeyedStore::new();
    assert_eq!(store.len(), 0);
    store.insert("a".to_string(), 1);
    store.insert("b".to_string(), 2);
    assert_eq!(store.len(), 2);
    assert_eq!(store.get(&"a".to_string()), Some(&1));
    assert_eq!(store.get(&"b".to_string()), Some(&2));
    assert_eq!(store.get(&"c".to_string()), None);
    assert!(store.contains_key(&"a".to_string()));
    assert!(!store.contains_key(&"c".to_string()));
}

#[test]
fn store_insert_replaces_under_same_key() {
    let mut store: KeyedStore<u32> = KeyedStore::new();
    store.insert("a".to_string(), 1);
    store.insert("a".to_string(), 7);
    assert_eq!(store.len(), 1);
    assert_eq!(store.get(&"a".to_string()), Some(&7));
}

#[test]
fn store_remove_takes_the_value_out() {
    let mut store: KeyedStore<u32> = KeyedStore::new();
    store.insert("a".to_string(), 1);
    store.insert("b".to_string(), 2);
    assert_eq!(store.remove(&"a".to_string()), Some(1));
    assert_eq!(store.remove(&"a".to_string()), None);
    assert_eq!(store.len(), 1);
    assert_eq!(store.get(&"b".to_string()), Some(&2));
}

#[test]
fn record_kind_registry_is_consistent() {
    assert_eq!(diff_strategy(RecordKind::Count), DiffStrategy::Scalar);
    assert_eq!(diff_strategy(RecordKind::Leaderboard), DiffStrategy::Collection);
    assert_eq!(diff_strategy(RecordKind::Matches), DiffStrategy::Scalar);
    assert_eq!(diff_strategy(RecordKind::Tournaments), DiffStrategy::KeyedMap);
    assert_eq!(diff_strategy(RecordKind::Participants), DiffStrategy::KeyedMap);

    assert_eq!(sink_write_of(RecordKind::Count), SinkWrite::Upsert);
    assert_eq!(sink_write_of(RecordKind::Leaderboard), SinkWrite::Insert);
    assert_eq!(sink_write_of(RecordKind::Tournaments), SinkWrite::Upsert);

    assert!(query_text(RecordKind::Count).unwrap().contains("count"));
    assert!(query_text(RecordKind::Leaderboard).unwrap().contains("leaderboard"));
    assert!(query_text(RecordKind::Matches).unwrap().contains("matchHistoryLast"));
    assert!(query_text(RecordKind::Tournaments).unwrap().contains("allTournaments"));
    assert_eq!(query_text(RecordKind::Participants), None);
}
