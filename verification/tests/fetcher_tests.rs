use sst_meta::fetcher::SstMetaReader;
use sst_meta::meta_data::{
    Error, MetaData, ParquetFilter, ParquetMetaData, SstMetaData,
};
use sst_meta::schema::{ColumnSchema, DatumKind, Schema};
use sst_meta::source::{ScriptedSource, SourceError};
use sst_meta::time_range::TimeRange;
use sst_meta::types::{new_sst_file_path, FileHandle, StorageFormat};
use std::sync::Arc;

fn sample_meta(seq: u64) -> SstMetaData {
    SstMetaData::Parquet(Arc::new(ParquetMetaData {
        min_key: vec![3],
        max_key: vec![8],
        time_range: TimeRange { inclusive_start: 50, exclusive_end: 60 },
        max_sequence: seq,
        schema: Schema {
            timestamp_index: 0,
            columns: vec![ColumnSchema {
                id: 1,
                name: "ts".to_string(),
                data_type: DatumKind::Timestamp,
                is_nullable: false,
                is_tag: false,
            }],
        },
        parquet_filter: Some(ParquetFilter { row_group_filters: vec![vec![7]] }),
        collapsible_cols_idx: vec![],
    }))
}

fn file(id: u64) -> FileHandle {
    FileHandle { id, size: 1024, format: StorageFormat::Columnar }
}

#[test]
fn batch_returns_metas_in_input_order() {
    let (m1, m2, m3) = (sample_meta(1), sample_meta(2), sample_meta(3));
    let source = ScriptedSource::new(vec![Ok(m1.clone()), Ok(m2.clone()), Ok(m3.clone())]);
    let mut reader = SstMetaReader { space_id: 1, table_id: 2, source };
    let files = vec![file(10), file(20), file(30)];
    let metas = reader.fetch_metas(&files).unwrap();
    assert_eq!(metas, vec![m1, m2, m3]);
    assert_eq!(reader.source.remaining(), 0);
}

#[test]
fn batch_on_empty_input_is_empty() {
    let source = ScriptedSource::new(vec![]);
    let mut reader = SstMetaReader { space_id: 1, table_id: 2, source };
    let metas = reader.fetch_metas(&vec![]).unwrap();
    assert_eq!(metas.len(), 0);
}

#[test]
fn batch_aborts_on_first_failure_with_the_failing_path() {
    let source = ScriptedSource::new(vec![
        Ok(sample_meta(1)),
        Err(SourceError::CreateReader { detail: "unsupported format".to_string() }),
        Ok(sample_meta(3)),
    ]);
    let mut reader = SstMetaReader { space_id: 1, table_id: 2, source };
    let files = vec![file(10), file(20), file(30)];
    let err = reader.fetch_metas(&files).unwrap_err();
    // The error names the second file's path; no partial result came back.
    assert_eq!(
        err,
        Error::CreateSstReader {
            path: new_sst_file_path(1, 2, 20),
            detail: "unsupported format".to_string(),
        }
    );
    // The third file was never asked for.
    assert_eq!(reader.source.remaining(), 1);
}

#[test]
fn read_failures_surface_as_read_meta_data() {
    let source = ScriptedSource::new(vec![Err(SourceError::ReadMeta {
        detail: "truncated footer".to_string(),
    })]);
    let mut reader = SstMetaReader { space_id: 4, table_id: 5, source };
    let err = reader.fetch_metas(&vec![file(6)]).unwrap_err();
    assert_eq!(
        err,
        Error::ReadMetaData {
            path: new_sst_file_path(4, 5, 6),
            detail: "truncated footer".to_string(),
        }
    );
}

#[test]
fn accessors_expose_the_common_fields() {
    let m = sample_meta(42);
    assert_eq!(m.max_sequence(), 42);
    assert_eq!(m.time_range(), TimeRange { inclusive_start: 50, exclusive_end: 60 });
    assert_eq!(m.schema().columns.len(), 1);
    let p = m.as_parquet().unwrap();
    assert_eq!(p.max_sequence, 42);
    assert_eq!(p.min_key, vec![3]);
}

#[test]
fn writer_subset_projection_keeps_the_common_fields() {
    let m = sample_meta(11);
    let w = MetaData::from_sst_meta(&m);
    assert_eq!(w.min_key, vec![3]);
    assert_eq!(w.max_key, vec![8]);
    assert_eq!(w.time_range, TimeRange { inclusive_start: 50, exclusive_end: 60 });
    assert_eq!(w.max_sequence, 11);
    assert_eq!(w.schema.columns[0].name, "ts");
}

#[test]
fn file_handle_exposes_id_size_and_format() {
    let f = file(77);
    assert_eq!(f.id(), 77);
    assert_eq!(f.size(), 1024);
    assert_eq!(f.storage_format(), StorageFormat::Columnar);
    let h = f.read_hint();
    assert_eq!(h.file_size, Some(1024));
    assert_eq!(h.file_format, Some(StorageFormat::Columnar));
}

#[test]
fn path_renders_as_decimal_triple() {
    assert_eq!(new_sst_file_path(1, 2, 3).text(), "1/2/3.sst");
    assert_eq!(new_sst_file_path(0, 0, 0).text(), "0/0/0.sst");
    assert_eq!(new_sst_file_path(12, 345, 67890).text(), "12/345/67890.sst");
    assert_eq!(
        new_sst_file_path(u32::MAX, u64::MAX, 10).text(),
        "4294967295/18446744073709551615/10.sst"
    );
}

#[test]
fn time_range_rejects_inverted_bounds() {
    assert_eq!(
        TimeRange::new(3, 9),
        Some(TimeRange { inclusive_start: 3, exclusive_end: 9 })
    );
    assert_eq!(TimeRange::new(9, 3), None);
    let r = TimeRange::new(0, 10).unwrap();
    assert!(r.contains(0));
    assert!(r.contains(9));
    assert!(!r.contains(10));
    assert_eq!(r.inclusive_start(), 0);
    assert_eq!(r.exclusive_end(), 10);
}
