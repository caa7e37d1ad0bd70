use sst_meta::cache::{BeginFetch, CachedSource, MetadataCache};
use sst_meta::fetcher::SstMetaReader;
use sst_meta::meta_data::{Error, ParquetMetaData, SstMetaData};
use sst_meta::schema::{ColumnSchema, DatumKind, Schema};
use sst_meta::source::{ScriptedSource, SourceError};
use sst_meta::time_range::TimeRange;
use sst_meta::types::{new_sst_file_path, FileHandle, SstFilePath, SstReadHint, StorageFormat};
use std::sync::Arc;

fn sample_meta(seq: u64) -> SstMetaData {
    SstMetaData::Parquet(Arc::new(ParquetMetaData {
        min_key: vec![0],
        max_key: vec![1],
        time_range: TimeRange { inclusive_start: 0, exclusive_end: 10 },
        max_sequence: seq,
        schema: Schema {
            timestamp_index: 0,
            columns: vec![ColumnSchema {
                id: 1,
                name: "ts".to_string(),
                data_type: DatumKind::Timestamp,
                is_nullable: false,
                is_tag: false,
            }],
        },
        parquet_filter: None,
        collapsible_cols_idx: vec![],
    }))
}

fn key(file_id: u64) -> SstFilePath {
    new_sst_file_path(1, 2, file_id)
}

fn hint() -> SstReadHint {
    SstReadHint { file_size: Some(64), file_format: Some(StorageFormat::Columnar) }
}

#[test]
fn second_fetch_for_same_key_waits() {
    let mut cache = MetadataCache::new(4);
    assert!(matches!(cache.begin_fetch(key(1)), BeginFetch::MustFetch));
    // The fetch is in flight: a concurrent requester coalesces onto it.
    assert!(matches!(cache.begin_fetch(key(1)), BeginFetch::Wait));
    assert!(matches!(cache.begin_fetch(key(1)), BeginFetch::Wait));
    // A different key is unaffected.
    assert!(matches!(cache.begin_fetch(key(2)), BeginFetch::MustFetch));
}

#[test]
fn completed_fetch_is_shared_by_later_lookups() {
    let mut cache = MetadataCache::new(4);
    assert!(matches!(cache.begin_fetch(key(1)), BeginFetch::MustFetch));
    let m = sample_meta(5);
    cache.complete_fetch(key(1), m.clone());
    match cache.begin_fetch(key(1)) {
        BeginFetch::Hit(got) => assert_eq!(got, m),
        _ => panic!("expected a hit"),
    }
}

#[test]
fn failed_fetch_leaves_no_entry() {
    let mut cache = MetadataCache::new(4);
    assert!(matches!(cache.begin_fetch(key(1)), BeginFetch::MustFetch));
    cache.abort_fetch(key(1));
    assert_eq!(cache.len(), 0);
    // The next lookup retries from scratch.
    assert!(matches!(cache.begin_fetch(key(1)), BeginFetch::MustFetch));
}

#[test]
fn eviction_removes_least_recently_accessed_ready_entry() {
    let mut cache = MetadataCache::new(2);
    assert!(matches!(cache.begin_fetch(key(1)), BeginFetch::MustFetch));
    cache.complete_fetch(key(1), sample_meta(1));
    assert!(matches!(cache.begin_fetch(key(2)), BeginFetch::MustFetch));
    cache.complete_fetch(key(2), sample_meta(2));
    // Touch key 1: key 2 becomes the least recently accessed.
    assert!(matches!(cache.begin_fetch(key(1)), BeginFetch::Hit(_)));
    assert!(matches!(cache.begin_fetch(key(3)), BeginFetch::MustFetch));
    cache.complete_fetch(key(3), sample_meta(3));
    assert_eq!(cache.len(), 2);
    // Key 2 was evicted; keys 1 and 3 survive.
    assert!(matches!(cache.begin_fetch(key(1)), BeginFetch::Hit(_)));
    assert!(matches!(cache.begin_fetch(key(3)), BeginFetch::Hit(_)));
    assert!(matches!(cache.begin_fetch(key(2)), BeginFetch::MustFetch));
}

#[test]
fn eviction_never_removes_loading_entries() {
    let mut cache = MetadataCache::new(1);
    // An in-flight fetch for key 9 sits at the least-recent end.
    assert!(matches!(cache.begin_fetch(key(9)), BeginFetch::MustFetch));
    assert!(matches!(cache.begin_fetch(key(1)), BeginFetch::MustFetch));
    cache.complete_fetch(key(1), sample_meta(1));
    assert!(matches!(cache.begin_fetch(key(2)), BeginFetch::MustFetch));
    // Completing key 2 exceeds the capacity: key 1 is evicted, the
    // in-flight key 9 is spared although it is older.
    cache.complete_fetch(key(2), sample_meta(2));
    assert!(matches!(cache.begin_fetch(key(9)), BeginFetch::Wait));
    assert!(matches!(cache.begin_fetch(key(1)), BeginFetch::MustFetch));
}

#[test]
fn get_or_fetch_invokes_the_source_exactly_once_per_key() {
    let mut cache = MetadataCache::new(4);
    let m = sample_meta(7);
    let mut source = ScriptedSource::new(vec![Ok(m.clone()), Ok(sample_meta(8))]);
    let first = cache.get_or_fetch(key(1), hint(), &mut source).unwrap();
    assert_eq!(first, m);
    assert_eq!(source.remaining(), 1);
    // Repeated lookups are served from the cache: the source is not asked.
    for _ in 0..3 {
        let again = cache.get_or_fetch(key(1), hint(), &mut source).unwrap();
        assert_eq!(again, m);
    }
    assert_eq!(source.remaining(), 1);
}

#[test]
fn cached_source_serves_repeat_batches_without_rereading() {
    let (m1, m2) = (sample_meta(1), sample_meta(2));
    let inner = ScriptedSource::new(vec![Ok(m1.clone()), Ok(m2.clone())]);
    let source = CachedSource::new(MetadataCache::new(8), inner);
    let mut reader = SstMetaReader { space_id: 1, table_id: 2, source };
    let files = vec![
        FileHandle { id: 10, size: 64, format: StorageFormat::Columnar },
        FileHandle { id: 20, size: 64, format: StorageFormat::Columnar },
    ];
    let first = reader.fetch_metas(&files).unwrap();
    assert_eq!(first, vec![m1.clone(), m2.clone()]);
    assert_eq!(reader.source.cached_entries(), 2);
    // The second batch is served entirely from the cache: had the inner
    // source been asked again, it would have failed with an exhausted
    // script.
    let second = reader.fetch_metas(&files).unwrap();
    assert_eq!(second, vec![m1, m2]);
}

#[test]
fn get_or_fetch_failure_is_not_cached_and_retry_succeeds() {
    let mut cache = MetadataCache::new(4);
    let m = sample_meta(7);
    let mut source = ScriptedSource::new(vec![
        Err(SourceError::Store { detail: "connection reset".to_string() }),
        Ok(m.clone()),
    ]);
    let err = cache.get_or_fetch(key(1), hint(), &mut source).unwrap_err();
    assert_eq!(
        err,
        Error::FetchFromStore { path: key(1), detail: "connection reset".to_string() }
    );
    assert_eq!(cache.len(), 0);
    // The failure left no entry: the retry fetches afresh and succeeds.
    let got = cache.get_or_fetch(key(1), hint(), &mut source).unwrap();
    assert_eq!(got, m);
    assert_eq!(source.remaining(), 0);
}
