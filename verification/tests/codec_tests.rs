use sst_meta::codec::{
    decode, encode, WireColumnSchema, WireEnvelope, WireMetaData, WireParquetMetaData, WireSchema,
    WireTimeRange,
};
use sst_meta::meta_data::{
    Error, ParquetFilter, ParquetMetaData, PayloadError, SstMetaData,
};
use sst_meta::schema::{ColumnSchema, DatumKind, Schema};
use sst_meta::time_range::TimeRange;
use std::sync::Arc;

fn sample_schema() -> Schema {
    Schema {
        timestamp_index: 0,
        columns: vec![
            ColumnSchema {
                id: 1,
                name: "ts".to_string(),
                data_type: DatumKind::Timestamp,
                is_nullable: false,
                is_tag: false,
            },
            ColumnSchema {
                id: 2,
                name: "host".to_string(),
                data_type: DatumKind::Text,
                is_nullable: true,
                is_tag: true,
            },
        ],
    }
}

fn sample_meta(seq: u64) -> SstMetaData {
    SstMetaData::Parquet(Arc::new(ParquetMetaData {
        min_key: vec![1, 2],
        max_key: vec![9, 9],
        time_range: TimeRange { inclusive_start: 100, exclusive_end: 200 },
        max_sequence: seq,
        schema: sample_schema(),
        parquet_filter: Some(ParquetFilter { row_group_filters: vec![vec![0xAB, 0xCD]] }),
        collapsible_cols_idx: vec![2],
    }))
}

fn sample_wire(seq: u64) -> WireParquetMetaData {
    match encode(&sample_meta(seq)).meta_data.unwrap() {
        WireMetaData::Parquet(p) => p,
    }
}

#[test]
fn round_trip_preserves_everything() {
    let e = sample_meta(7);
    let wire = encode(&e);
    let d = decode(&wire).unwrap();
    assert_eq!(d, e);
    assert_eq!(d.schema(), e.schema());
    assert_eq!(d.time_range(), e.time_range());
    assert_eq!(d.max_sequence(), 7);
}

#[test]
fn round_trip_without_filter() {
    let e = SstMetaData::Parquet(Arc::new(ParquetMetaData {
        min_key: vec![],
        max_key: vec![],
        time_range: TimeRange { inclusive_start: -5, exclusive_end: -5 },
        max_sequence: 0,
        schema: sample_schema(),
        parquet_filter: None,
        collapsible_cols_idx: vec![],
    }));
    assert_eq!(decode(&encode(&e)).unwrap(), e);
}

#[test]
fn encode_writes_exact_wire_fields() {
    let p = sample_wire(7);
    assert_eq!(p.max_sequence, 7);
    assert_eq!(p.min_key, vec![1, 2]);
    assert_eq!(p.max_key, vec![9, 9]);
    assert_eq!(
        p.time_range,
        Some(WireTimeRange { inclusive_start: 100, exclusive_end: 200 })
    );
    let s = p.schema.unwrap();
    assert_eq!(s.timestamp_index, 0);
    assert_eq!(s.columns.len(), 2);
    assert_eq!(s.columns[0].data_type, 0);
    assert_eq!(s.columns[1].data_type, 2);
    assert_eq!(s.columns[1].name, "host");
    let f = p.filter.unwrap();
    assert_eq!(f.row_group_filters, vec![vec![0xAB, 0xCD]]);
    assert_eq!(p.collapsible_cols_idx, vec![2]);
}

#[test]
fn missing_variant_is_meta_data_not_found() {
    let wire = WireEnvelope { meta_data: None };
    assert_eq!(decode(&wire), Err(Error::MetaDataNotFound));
}

#[test]
fn missing_time_range_is_payload_error() {
    let mut p = sample_wire(1);
    p.time_range = None;
    let wire = WireEnvelope { meta_data: Some(WireMetaData::Parquet(p)) };
    assert_eq!(
        decode(&wire),
        Err(Error::DecodeCustomMetaData { source: PayloadError::TimeRangeNotFound })
    );
}

#[test]
fn inverted_time_range_is_payload_error() {
    let mut p = sample_wire(1);
    p.time_range = Some(WireTimeRange { inclusive_start: 10, exclusive_end: 3 });
    let wire = WireEnvelope { meta_data: Some(WireMetaData::Parquet(p)) };
    assert_eq!(
        decode(&wire),
        Err(Error::DecodeCustomMetaData {
            source: PayloadError::InvalidTimeRange { inclusive_start: 10, exclusive_end: 3 },
        })
    );
}

#[test]
fn missing_schema_is_payload_error() {
    let mut p = sample_wire(1);
    p.schema = None;
    let wire = WireEnvelope { meta_data: Some(WireMetaData::Parquet(p)) };
    assert_eq!(
        decode(&wire),
        Err(Error::DecodeCustomMetaData { source: PayloadError::TableSchemaNotFound })
    );
}

#[test]
fn unknown_datum_tag_is_payload_error() {
    let mut p = sample_wire(1);
    p.schema = Some(WireSchema {
        timestamp_index: 0,
        columns: vec![
            WireColumnSchema {
                id: 1,
                name: "ts".to_string(),
                data_type: 0,
                is_nullable: false,
                is_tag: false,
            },
            WireColumnSchema {
                id: 2,
                name: "odd".to_string(),
                data_type: 99,
                is_nullable: false,
                is_tag: false,
            },
        ],
    });
    let wire = WireEnvelope { meta_data: Some(WireMetaData::Parquet(p)) };
    assert_eq!(
        decode(&wire),
        Err(Error::DecodeCustomMetaData { source: PayloadError::UnknownDatumKind { tag: 99 } })
    );
}

#[test]
fn timestamp_index_out_of_range_is_payload_error() {
    let mut p = sample_wire(1);
    if let Some(s) = &mut p.schema {
        s.timestamp_index = 5;
    }
    let wire = WireEnvelope { meta_data: Some(WireMetaData::Parquet(p)) };
    assert_eq!(
        decode(&wire),
        Err(Error::DecodeCustomMetaData {
            source: PayloadError::InvalidTimestampIndex { index: 5 },
        })
    );
}

#[test]
fn timestamp_index_on_non_timestamp_column_is_payload_error() {
    let mut p = sample_wire(1);
    if let Some(s) = &mut p.schema {
        s.timestamp_index = 1;
    }
    let wire = WireEnvelope { meta_data: Some(WireMetaData::Parquet(p)) };
    assert_eq!(
        decode(&wire),
        Err(Error::DecodeCustomMetaData {
            source: PayloadError::InvalidTimestampIndex { index: 1 },
        })
    );
}
