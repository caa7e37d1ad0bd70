//! Lossless conversion between the metadata envelope and its durable wire
//! form, and the decoder of the legacy key-value metadata block.
//!
//! The wire form is a versioned tagged union with exactly one populated
//! variant; every optional field is validated on decode, and each failure
//! maps to a distinct error kind rather than a silent default.

use crate::meta_data::{
    clone_bytes, clone_u32s, Error, ParquetFilter, ParquetMetaData, ParquetMetaDataV, PayloadError,
    SstMetaData, SstMetaDataV,
};
use crate::schema::{ColumnSchema, ColumnSchemaV, DatumKind, Schema};
use crate::time_range::TimeRange;
use std::sync::Arc;
use vstd::prelude::*;

verus! {

/// Wire form of one column of the schema: the data type travels as a plain
/// numeric tag so that newer builds can add types without breaking the
/// layout.
#[derive(Debug, PartialEq)]
pub struct WireColumnSchema {
    pub id: u32,
    pub name: String,
    pub data_type: u32,
    pub is_nullable: bool,
    pub is_tag: bool,
}

/// Mathematical value of a [`WireColumnSchema`].
#[verifier::ext_equal]
pub ghost struct WireColumnSchemaV {
    pub id: u32,
    pub name: Seq<char>,
    pub data_type: u32,
    pub is_nullable: bool,
    pub is_tag: bool,
}

impl View for WireColumnSchema {
    type V = WireColumnSchemaV;

    open spec fn view(&self) -> WireColumnSchemaV {
        WireColumnSchemaV {
            id: self.id,
            name: self.name@,
            data_type: self.data_type,
            is_nullable: self.is_nullable,
            is_tag: self.is_tag,
        }
    }
}

/// Wire form of the table schema.
#[derive(Debug, PartialEq)]
pub struct WireSchema {
    pub timestamp_index: u64,
    pub columns: Vec<WireColumnSchema>,
}

/// Mathematical value of a [`WireSchema`].
#[verifier::ext_equal]
pub ghost struct WireSchemaV {
    pub timestamp_index: u64,
    pub columns: Seq<WireColumnSchemaV>,
}

impl View for WireSchema {
    type V = WireSchemaV;

    open spec fn view(&self) -> WireSchemaV {
        WireSchemaV {
            timestamp_index: self.timestamp_index,
            columns: self.columns@.map_values(|c: WireColumnSchema| c@),
        }
    }
}

/// Wire form of the time range; validated on decode, never defaulted.
#[derive(Debug, Clone, Copy, PartialEq, Eq, Structural)]
pub struct WireTimeRange {
    pub inclusive_start: i64,
    pub exclusive_end: i64,
}

/// Wire form of the row-group filters.
#[derive(Debug, PartialEq)]
pub struct WireParquetFilter {
    pub row_group_filters: Vec<Vec<u8>>,
}

impl View for WireParquetFilter {
    type V = Seq<Seq<u8>>;

    open spec fn view(&self) -> Seq<Seq<u8>> {
        self.row_group_filters@.map_values(|f: Vec<u8>| f@)
    }
}

/// Wire form of the columnar metadata payload. Sub-messages travel as
/// optional fields; their absence is a detectable decode error.
#[derive(Debug, PartialEq)]
pub struct WireParquetMetaData {
    pub min_key: Vec<u8>,
    pub max_key: Vec<u8>,
    pub max_sequence: u64,
    pub time_range: Option<WireTimeRange>,
    pub schema: Option<WireSchema>,
    pub filter: Option<WireParquetFilter>,
    pub collapsible_cols_idx: Vec<u32>,
}

/// Mathematical value of a [`WireParquetMetaData`].
#[verifier::ext_equal]
pub ghost struct WireParquetMetaDataV {
    pub min_key: Seq<u8>,
    pub max_key: Seq<u8>,
    pub max_sequence: u64,
    pub time_range: Option<WireTimeRange>,
    pub schema: Option<WireSchemaV>,
    pub filter: Option<Seq<Seq<u8>>>,
    pub collapsible_cols_idx: Seq<u32>,
}

impl View for WireParquetMetaData {
    type V = WireParquetMetaDataV;

    open spec fn view(&self) -> WireParquetMetaDataV {
        WireParquetMetaDataV {
            min_key: self.min_key@,
            max_key: self.max_key@,
            max_sequence: self.max_sequence,
            time_range: self.time_range,
            schema: match self.schema {
                Some(s) => Some(s@),
                None => None,
            },
            filter: match self.filter {
                Some(f) => Some(f@),
                None => None,
            },
            collapsible_cols_idx: self.collapsible_cols_idx@,
        }
    }
}

/// The tagged union of wire metadata payloads; one variant per on-disk
/// format.
#[derive(Debug, PartialEq)]
pub enum WireMetaData {
    Parquet(WireParquetMetaData),
}

/// Mathematical value of a [`WireMetaData`].
#[verifier::ext_equal]
pub ghost enum WireMetaDataV {
    Parquet(WireParquetMetaDataV),
}

impl View for WireMetaData {
    type V = WireMetaDataV;

    open spec fn view(&self) -> WireMetaDataV {
        match self {
            WireMetaData::Parquet(p) => WireMetaDataV::Parquet(p@),
        }
    }
}

/// The persisted wire envelope: a tagged union whose variant may be absent
/// in a partially written or corrupt file.
#[derive(Debug, PartialEq)]
pub struct WireEnvelope {
    pub meta_data: Option<WireMetaData>,
}

/// Mathematical value of a [`WireEnvelope`].
#[verifier::ext_equal]
pub ghost struct WireEnvelopeV {
    pub meta_data: Option<WireMetaDataV>,
}

impl View for WireEnvelope {
    type V = WireEnvelopeV;

    open spec fn view(&self) -> WireEnvelopeV {
        WireEnvelopeV {
            meta_data: match self.meta_data {
                Some(m) => Some(m@),
                None => None,
            },
        }
    }
}

/// Numeric wire tag of a data type.
pub open spec fn tag_of_kind(k: DatumKind) -> u32 {
    match k {
        DatumKind::Timestamp => 0,
        DatumKind::Varbinary => 1,
        DatumKind::Text => 2,
        DatumKind::UInt64 => 3,
        DatumKind::Int64 => 4,
        DatumKind::Boolean => 5,
    }
}

/// Data type of a numeric wire tag; an unrecognized tag decodes to nothing.
pub open spec fn kind_of_tag(tag: u32) -> Option<DatumKind> {
    if tag == 0 {
        Some(DatumKind::Timestamp)
    } else if tag == 1 {
        Some(DatumKind::Varbinary)
    } else if tag == 2 {
        Some(DatumKind::Text)
    } else if tag == 3 {
        Some(DatumKind::UInt64)
    } else if tag == 4 {
        Some(DatumKind::Int64)
    } else if tag == 5 {
        Some(DatumKind::Boolean)
    } else {
        None
    }
}

fn exec_tag_of_kind(k: DatumKind) -> (r: u32)
    ensures
        r == tag_of_kind(k),
{
    match k {
        DatumKind::Timestamp => 0,
        DatumKind::Varbinary => 1,
        DatumKind::Text => 2,
        DatumKind::UInt64 => 3,
        DatumKind::Int64 => 4,
        DatumKind::Boolean => 5,
    }
}

fn exec_kind_of_tag(tag: u32) -> (r: Option<DatumKind>)
    ensures
        r == kind_of_tag(tag),
{
    if tag == 0 {
        Some(DatumKind::Timestamp)
    } else if tag == 1 {
        Some(DatumKind::Varbinary)
    } else if tag == 2 {
        Some(DatumKind::Text)
    } else if tag == 3 {
        Some(DatumKind::UInt64)
    } else if tag == 4 {
        Some(DatumKind::Int64)
    } else if tag == 5 {
        Some(DatumKind::Boolean)
    } else {
        None
    }
}

/// Wire form of one column.
pub open spec fn encode_column_spec(c: ColumnSchemaV) -> WireColumnSchemaV {
    WireColumnSchemaV {
        id: c.id,
        name: c.name,
        data_type: tag_of_kind(c.data_type),
        is_nullable: c.is_nullable,
        is_tag: c.is_tag,
    }
}

/// Wire form of a whole envelope. Encoding is pure and total: every
/// in-memory envelope has a wire representation.
pub open spec fn spec_encode(e: SstMetaDataV) -> WireEnvelopeV {
    let p = e.payload();
    WireEnvelopeV {
        meta_data: Some(
            WireMetaDataV::Parquet(
                WireParquetMetaDataV {
                    min_key: p.min_key,
                    max_key: p.max_key,
                    max_sequence: p.max_sequence,
                    time_range: Some(
                        WireTimeRange {
                            inclusive_start: p.time_range.inclusive_start,
                            exclusive_end: p.time_range.exclusive_end,
                        },
                    ),
                    schema: Some(
                        WireSchemaV {
                            timestamp_index: p.schema.timestamp_index as u64,
                            columns: p.schema.columns.map_values(
                                |c: ColumnSchemaV| encode_column_spec(c),
                            ),
                        },
                    ),
                    filter: p.parquet_filter,
                    collapsible_cols_idx: p.collapsible_cols_idx,
                },
            ),
        ),
    }
}

/// Whether a wire column carries a recognized data type tag.
pub open spec fn column_ok(c: WireColumnSchemaV) -> bool {
    kind_of_tag(c.data_type) is Some
}

/// Whether every wire column carries a recognized data type tag.
pub open spec fn columns_ok(cs: Seq<WireColumnSchemaV>) -> bool {
    forall|i: int| 0 <= i < cs.len() ==> column_ok(#[trigger] cs[i])
}

/// The tag of the first column whose data type is unrecognized.
pub open spec fn first_bad_tag(cs: Seq<WireColumnSchemaV>) -> u32
    decreases cs.len(),
{
    if cs.len() == 0 {
        0
    } else if !column_ok(cs[0]) {
        cs[0].data_type
    } else {
        first_bad_tag(cs.drop_first())
    }
}

/// In-memory value of a wire column with a recognized tag.
pub open spec fn decode_column_spec(c: WireColumnSchemaV) -> ColumnSchemaV {
    ColumnSchemaV {
        id: c.id,
        name: c.name,
        data_type: match kind_of_tag(c.data_type) {
            Some(k) => k,
            None => DatumKind::Timestamp,
        },
        is_nullable: c.is_nullable,
        is_tag: c.is_tag,
    }
}

/// Whether the wire timestamp index names an existing timestamp column.
pub open spec fn timestamp_index_ok(s: WireSchemaV) -> bool {
    &&& s.timestamp_index < s.columns.len()
    &&& kind_of_tag(s.columns[s.timestamp_index as int].data_type) == Some(DatumKind::Timestamp)
}

/// Outcome of decoding the columnar wire payload: the in-memory metadata,
/// or the exact structural failure.
pub open spec fn wire_decode_parquet(p: WireParquetMetaDataV) -> Result<
    ParquetMetaDataV,
    PayloadError,
> {
    match p.time_range {
        None => Err(PayloadError::TimeRangeNotFound),
        Some(tr) => {
            if tr.inclusive_start > tr.exclusive_end {
                Err(
                    PayloadError::InvalidTimeRange {
                        inclusive_start: tr.inclusive_start,
                        exclusive_end: tr.exclusive_end,
                    },
                )
            } else {
                match p.schema {
                    None => Err(PayloadError::TableSchemaNotFound),
                    Some(s) => {
                        if !columns_ok(s.columns) {
                            Err(PayloadError::UnknownDatumKind { tag: first_bad_tag(s.columns) })
                        } else if !timestamp_index_ok(s) {
                            Err(PayloadError::InvalidTimestampIndex { index: s.timestamp_index })
                        } else {
                            Ok(
                                ParquetMetaDataV {
                                    min_key: p.min_key,
                                    max_key: p.max_key,
                                    time_range: TimeRange {
                                        inclusive_start: tr.inclusive_start,
                                        exclusive_end: tr.exclusive_end,
                                    },
                                    max_sequence: p.max_sequence,
                                    schema: crate::schema::SchemaV {
                                        timestamp_index: s.timestamp_index as usize,
                                        columns: s.columns.map_values(
                                            |c: WireColumnSchemaV| decode_column_spec(c),
                                        ),
                                    },
                                    parquet_filter: p.filter,
                                    collapsible_cols_idx: p.collapsible_cols_idx,
                                },
                            )
                        }
                    },
                }
            }
        },
    }
}

/// Encodes an envelope into its wire form; pure, total, and lossless (see
/// [`lemma_encode_decode_round_trip`]).
pub fn encode(meta: &SstMetaData) -> (r: WireEnvelope)
    ensures
        r@ == spec_encode(meta@),
{
    match meta {
        SstMetaData::Parquet(p) => {
            let mut columns: Vec<WireColumnSchema> = Vec::new();
            let mut i: usize = 0;
            while i < p.schema.columns.len()
                invariant
                    i <= p.schema.columns.len(),
                    columns@.len() == i,
                    forall|j: int| 0 <= j < i ==> columns@[j]@ == encode_column_spec(
                        p.schema.columns@[j]@,
                    ),
                decreases p.schema.columns.len() - i,
            {
                let c = &p.schema.columns[i];
                columns.push(
                    WireColumnSchema {
                        id: c.id,
                        name: c.name.clone(),
                        data_type: exec_tag_of_kind(c.data_type),
                        is_nullable: c.is_nullable,
                        is_tag: c.is_tag,
                    },
                );
                i += 1;
            }
            let schema = WireSchema {
                timestamp_index: p.schema.timestamp_index as u64,
                columns,
            };
            let filter = match &p.parquet_filter {
                Some(f) => Some(
                    WireParquetFilter { row_group_filters: clone_byte_vecs(&f.row_group_filters) },
                ),
                None => None,
            };
            let wire = WireParquetMetaData {
                min_key: clone_bytes(&p.min_key),
                max_key: clone_bytes(&p.max_key),
                max_sequence: p.max_sequence,
                time_range: Some(
                    WireTimeRange {
                        inclusive_start: p.time_range.inclusive_start,
                        exclusive_end: p.time_range.exclusive_end,
                    },
                ),
                schema: Some(schema),
                filter,
                collapsible_cols_idx: clone_u32s(&p.collapsible_cols_idx),
            };
            let r = WireEnvelope { meta_data: Some(WireMetaData::Parquet(wire)) };
            assert(r@.meta_data->Some_0->Parquet_0.schema->Some_0.columns =~= spec_encode(
                meta@,
            ).meta_data->Some_0->Parquet_0.schema->Some_0.columns);
            assert(r@ =~~= spec_encode(meta@));
            r
        },
    }
}

proof fn lemma_first_bad_tag(cs: Seq<WireColumnSchemaV>, i: int)
    requires
        0 <= i < cs.len(),
        !column_ok(cs[i]),
        forall|j: int| 0 <= j < i ==> column_ok(#[trigger] cs[j]),
    ensures
        first_bad_tag(cs) == cs[i].data_type,
    decreases i,
{
    if i > 0 {
        lemma_first_bad_tag(cs.drop_first(), i - 1);
    }
}

/// Decodes a wire envelope, validating every optional field: an absent
/// variant, an absent sub-message, an inverted time range, an unrecognized
/// data type tag and a bad timestamp index are distinct errors, never
/// silent defaults. Succeeds exactly on well-formed wire values, and then
/// returns a well-formed envelope.
#[verifier::loop_isolation(false)]
pub fn decode(wire: &WireEnvelope) -> (r: Result<SstMetaData, Error>)
    ensures
        wire@.meta_data is None ==> r == Err::<SstMetaData, Error>(Error::MetaDataNotFound),
        wire@.meta_data matches Some(WireMetaDataV::Parquet(p)) ==> match wire_decode_parquet(p) {
            Ok(m) => r matches Ok(d) && d@ == SstMetaDataV::Parquet(m) && d.wf(),
            Err(pe) => r == Err::<SstMetaData, Error>(Error::DecodeCustomMetaData { source: pe }),
        },
{
    let meta_data = match &wire.meta_data {
        None => {
            return Err(Error::MetaDataNotFound);
        },
        Some(m) => m,
    };
    match meta_data {
        WireMetaData::Parquet(p) => {
            let tr = match &p.time_range {
                None => {
                    return Err(Error::DecodeCustomMetaData { source: PayloadError::TimeRangeNotFound });
                },
                Some(tr) => *tr,
            };
            if tr.inclusive_start > tr.exclusive_end {
                return Err(
                    Error::DecodeCustomMetaData {
                        source: PayloadError::InvalidTimeRange {
                            inclusive_start: tr.inclusive_start,
                            exclusive_end: tr.exclusive_end,
                        },
                    },
                );
            }
            let ws = match &p.schema {
                None => {
                    return Err(
                        Error::DecodeCustomMetaData { source: PayloadError::TableSchemaNotFound },
                    );
                },
                Some(s) => s,
            };
            let mut columns: Vec<ColumnSchema> = Vec::new();
            let mut i: usize = 0;
            while i < ws.columns.len()
                invariant
                    i <= ws.columns.len(),
                    columns@.len() == i,
                    forall|j: int| 0 <= j < i ==> column_ok(#[trigger] ws.columns@[j]@),
                    forall|j: int| 0 <= j < i ==> columns@[j]@ == decode_column_spec(
                        ws.columns@[j]@,
                    ),
                decreases ws.columns.len() - i,
            {
                let c = &ws.columns[i];
                match exec_kind_of_tag(c.data_type) {
                    None => {
                        proof {
                            assert(ws@.columns[i as int] == ws.columns@[i as int]@);
                            assert(!column_ok(ws@.columns[i as int]));
                            assert forall|j: int| 0 <= j < i implies column_ok(
                                #[trigger] ws@.columns[j],
                            ) by {
                                assert(ws@.columns[j] == ws.columns@[j]@);
                            }
                            lemma_first_bad_tag(ws@.columns, i as int);
                        }
                        return Err(
                            Error::DecodeCustomMetaData {
                                source: PayloadError::UnknownDatumKind { tag: c.data_type },
                            },
                        );
                    },
                    Some(k) => {
                        columns.push(
                            ColumnSchema {
                                id: c.id,
                                name: c.name.clone(),
                                data_type: k,
                                is_nullable: c.is_nullable,
                                is_tag: c.is_tag,
                            },
                        );
                    },
                }
                i += 1;
            }
            assert(columns_ok(ws@.columns));
            if !(ws.timestamp_index < columns.len() as u64) {
                return Err(
                    Error::DecodeCustomMetaData {
                        source: PayloadError::InvalidTimestampIndex { index: ws.timestamp_index },
                    },
                );
            }
            let tsi = ws.timestamp_index as usize;
            let ts_ok = match columns[tsi].data_type {
                DatumKind::Timestamp => true,
                _ => false,
            };
            if !ts_ok {
                assert(!timestamp_index_ok(ws@));
                return Err(
                    Error::DecodeCustomMetaData {
                        source: PayloadError::InvalidTimestampIndex { index: ws.timestamp_index },
                    },
                );
            }
            assert(timestamp_index_ok(ws@));
            let schema = Schema { timestamp_index: tsi, columns };
            let filter = match &p.filter {
                Some(f) => Some(
                    ParquetFilter {
                        row_group_filters: clone_byte_vecs(&f.row_group_filters),
                    },
                ),
                None => None,
            };
            let payload = ParquetMetaData {
                min_key: clone_bytes(&p.min_key),
                max_key: clone_bytes(&p.max_key),
                time_range: TimeRange {
                    inclusive_start: tr.inclusive_start,
                    exclusive_end: tr.exclusive_end,
                },
                max_sequence: p.max_sequence,
                schema,
                parquet_filter: filter,
                collapsible_cols_idx: clone_u32s(&p.collapsible_cols_idx),
            };
            proof {
                let spec_m = wire_decode_parquet(p@)->Ok_0;
                assert(payload@.schema.columns =~= spec_m.schema.columns);
                assert(payload@ =~~= spec_m);
            }
            Ok(SstMetaData::Parquet(Arc::new(payload)))
        },
    }
}

/// Clones a vector of byte buffers, keeping every buffer's contents.
fn clone_byte_vecs(v: &Vec<Vec<u8>>) -> (r: Vec<Vec<u8>>)
    ensures
        r@.map_values(|f: Vec<u8>| f@) == v@.map_values(|f: Vec<u8>| f@),
{
    let mut r: Vec<Vec<u8>> = Vec::new();
    let mut i: usize = 0;
    while i < v.len()
        invariant
            i <= v.len(),
            r@.len() == i,
            forall|j: int| 0 <= j < i ==> r@[j]@ == v@[j]@,
        decreases v.len() - i,
    {
        r.push(clone_bytes(&v[i]));
        i += 1;
    }
    assert(r@.map_values(|f: Vec<u8>| f@) =~= v@.map_values(|f: Vec<u8>| f@));
    r
}

/// Round trip: decoding the encoding of any well-formed envelope yields
/// the envelope back — schema, time range, key bounds, highest sequence
/// and format-specific payload are preserved exactly.
pub proof fn lemma_encode_decode_round_trip(e: SstMetaDataV)
    requires
        e.wf(),
    ensures
        spec_encode(e).meta_data matches Some(WireMetaDataV::Parquet(p)) && wire_decode_parquet(p)
            == Ok::<ParquetMetaDataV, PayloadError>(e.payload()),
{
    let p = spec_encode(e).meta_data->Some_0->Parquet_0;
    let s = p.schema->Some_0;
    assert forall|i: int| 0 <= i < s.columns.len() implies column_ok(#[trigger] s.columns[i]) by {
        let c = e.payload().schema.columns[i];
        assert(s.columns[i] == encode_column_spec(c));
        assert(kind_of_tag(tag_of_kind(c.data_type)) == Some(c.data_type));
    }
    assert(columns_ok(s.columns));
    assert(kind_of_tag(s.columns[s.timestamp_index as int].data_type) == Some(
        DatumKind::Timestamp,
    )) by {
        let c = e.payload().schema.columns[e.payload().schema.timestamp_index as int];
        assert(c.data_type == DatumKind::Timestamp);
        assert(kind_of_tag(tag_of_kind(c.data_type)) == Some(c.data_type));
    }
    assert(timestamp_index_ok(s));
    let m = wire_decode_parquet(p)->Ok_0;
    assert forall|i: int| 0 <= i < s.columns.len() implies #[trigger] m.schema.columns[i]
        == e.payload().schema.columns[i] by {
        let c = e.payload().schema.columns[i];
        assert(s.columns[i] == encode_column_spec(c));
        assert(kind_of_tag(tag_of_kind(c.data_type)) == Some(c.data_type));
        assert(m.schema.columns[i] == decode_column_spec(encode_column_spec(c)));
    }
    assert(m.schema.columns =~= e.payload().schema.columns);
    assert(m =~~= e.payload());
}

} // verus!
