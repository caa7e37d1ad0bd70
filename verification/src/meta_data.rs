//! The format-tagged metadata envelope of a data file, and the error
//! taxonomy of the metadata layer.

use crate::schema::{Schema, SchemaV};
use crate::time_range::TimeRange;
use crate::types::{SequenceNumber, SstFilePath};
use std::sync::Arc;
use vstd::prelude::*;

verus! {

/// Structural failure of the format-specific payload of a wire envelope.
#[derive(Debug, Clone, Copy, PartialEq, Eq, Structural)]
pub enum PayloadError {
    /// The time range sub-message is absent.
    TimeRangeNotFound,
    /// The time range sub-message is inverted (start above end).
    InvalidTimeRange { inclusive_start: i64, exclusive_end: i64 },
    /// The table schema sub-message is absent.
    TableSchemaNotFound,
    /// A column carries a data type tag this build does not know.
    UnknownDatumKind { tag: u32 },
    /// The timestamp index does not name a timestamp column.
    InvalidTimestampIndex { index: u64 },
}

/// Error of the metadata layer. Every failure is a typed value carrying
/// enough context (error kind, offending file path, inner cause) to tell a
/// corrupt file from unreachable storage from a newer format.
#[derive(Debug, PartialEq)]
pub enum Error {
    /// Legacy key-value path: the metadata block itself is absent.
    KvMetaDataNotFound,
    /// Legacy key-value path: the version tag is present but empty.
    KvMetaVersionEmpty,
    /// Legacy key-value path: the path field is present but empty.
    KvMetaPathEmpty,
    /// Legacy key-value path: the version tag holds an unrecognized value.
    UnknownMetaVersion { version: String },
    /// Wire envelope: no format variant is populated.
    MetaDataNotFound,
    /// Wire envelope: the format-specific payload failed its structural
    /// validation.
    DecodeCustomMetaData { source: PayloadError },
    /// The reader factory could not produce a reader for the file.
    CreateSstReader { path: SstFilePath, detail: String },
    /// The reader could not resolve the file's metadata.
    ReadMetaData { path: SstFilePath, detail: String },
    /// The object store failed while reading the file.
    FetchFromStore { path: SstFilePath, detail: String },
    /// An embedded field that must be interpreted as text is not valid
    /// UTF-8.
    Utf8ErrorWrapper,
}

/// Format-specific statistics of a columnar file: sparse row-group filters,
/// one opaque bitmap per row group.
#[derive(Debug, PartialEq)]
pub struct ParquetFilter {
    pub row_group_filters: Vec<Vec<u8>>,
}

impl View for ParquetFilter {
    type V = Seq<Seq<u8>>;

    open spec fn view(&self) -> Seq<Seq<u8>> {
        self.row_group_filters@.map_values(|f: Vec<u8>| f@)
    }
}

impl Clone for ParquetFilter {
    /// The clone of a filter keeps every row-group bitmap.
    fn clone(&self) -> (r: Self)
        ensures
            r@ == self@,
    {
        let mut row_group_filters: Vec<Vec<u8>> = Vec::new();
        let mut i: usize = 0;
        while i < self.row_group_filters.len()
            invariant
                i <= self.row_group_filters.len(),
                row_group_filters@.len() == i,
                forall|j: int| 0 <= j < i ==> row_group_filters@[j]@
                    == self.row_group_filters@[j]@,
            decreases self.row_group_filters.len() - i,
        {
            row_group_filters.push(clone_bytes(&self.row_group_filters[i]));
            i += 1;
        }
        let r = ParquetFilter { row_group_filters };
        assert(r@ =~= self@);
        r
    }
}

/// Clones a byte buffer, keeping its contents.
pub(crate) fn clone_bytes(v: &Vec<u8>) -> (r: Vec<u8>)
    ensures
        r@ == v@,
{
    let r = v.clone();
    assert(r@ =~= v@);
    r
}

/// Clones a vector of column indexes, keeping its contents.
pub(crate) fn clone_u32s(v: &Vec<u32>) -> (r: Vec<u32>)
    ensures
        r@ == v@,
{
    let r = v.clone();
    assert(r@ =~= v@);
    r
}

/// Metadata of a columnar file: the common fields every format shares
/// (schema, time range, key bounds, highest sequence) plus the
/// format-specific statistics.
#[derive(Debug, PartialEq)]
pub struct ParquetMetaData {
    pub min_key: Vec<u8>,
    pub max_key: Vec<u8>,
    pub time_range: TimeRange,
    pub max_sequence: SequenceNumber,
    pub schema: Schema,
    pub parquet_filter: Option<ParquetFilter>,
    pub collapsible_cols_idx: Vec<u32>,
}

/// Mathematical value of a [`ParquetMetaData`].
#[verifier::ext_equal]
pub ghost struct ParquetMetaDataV {
    pub min_key: Seq<u8>,
    pub max_key: Seq<u8>,
    pub time_range: TimeRange,
    pub max_sequence: SequenceNumber,
    pub schema: SchemaV,
    pub parquet_filter: Option<Seq<Seq<u8>>>,
    pub collapsible_cols_idx: Seq<u32>,
}

impl View for ParquetMetaData {
    type V = ParquetMetaDataV;

    open spec fn view(&self) -> ParquetMetaDataV {
        ParquetMetaDataV {
            min_key: self.min_key@,
            max_key: self.max_key@,
            time_range: self.time_range,
            max_sequence: self.max_sequence,
            schema: self.schema@,
            parquet_filter: match self.parquet_filter {
                Some(f) => Some(f@),
                None => None,
            },
            collapsible_cols_idx: self.collapsible_cols_idx@,
        }
    }
}

impl ParquetMetaDataV {
    /// Every constructible metadata value has a well-formed time range and
    /// schema; decoding validates both before construction.
    pub open spec fn wf(self) -> bool {
        &&& self.time_range.wf()
        &&& self.schema.wf()
    }
}

impl ParquetMetaData {
    /// A metadata value is well formed when its mathematical value is.
    pub open spec fn wf(&self) -> bool {
        self@.wf()
    }
}

impl Clone for ParquetMetaData {
    /// The clone of a metadata value keeps every field.
    fn clone(&self) -> (r: Self)
        ensures
            r@ == self@,
    {
        let parquet_filter = match &self.parquet_filter {
            Some(f) => Some(f.clone()),
            None => None,
        };
        let r = ParquetMetaData {
            min_key: clone_bytes(&self.min_key),
            max_key: clone_bytes(&self.max_key),
            time_range: self.time_range,
            max_sequence: self.max_sequence,
            schema: self.schema.clone(),
            parquet_filter,
            collapsible_cols_idx: clone_u32s(&self.collapsible_cols_idx),
        };
        assert(r@ =~= self@);
        r
    }
}

/// Shared handle to the metadata of one columnar file; the cache and every
/// in-flight caller hold the same underlying allocation.
pub type ParquetMetaDataRef = Arc<ParquetMetaData>;

/// Clones a shared metadata handle.
///
/// Relies on `std::sync::Arc::clone`: the result is a new handle to the
/// same allocation, so it carries the same value.
#[verifier::external_body]
pub(crate) fn clone_meta_ref(v: &ParquetMetaDataRef) -> (r: ParquetMetaDataRef)
    ensures
        r == *v,
{
    Arc::clone(v)
}

/// The format-tagged metadata envelope of one data file. It is created
/// once, at write time or at decode time, and only read thereafter.
#[derive(Debug, PartialEq)]
pub enum SstMetaData {
    Parquet(ParquetMetaDataRef),
}

/// Mathematical value of an [`SstMetaData`].
#[verifier::ext_equal]
pub ghost enum SstMetaDataV {
    Parquet(ParquetMetaDataV),
}

impl View for SstMetaData {
    type V = SstMetaDataV;

    open spec fn view(&self) -> SstMetaDataV {
        match self {
            SstMetaData::Parquet(p) => SstMetaDataV::Parquet((**p)@),
        }
    }
}

impl SstMetaDataV {
    /// The payload common to every variant.
    pub open spec fn payload(self) -> ParquetMetaDataV {
        match self {
            SstMetaDataV::Parquet(p) => p,
        }
    }

    /// An envelope is well formed when its payload is.
    pub open spec fn wf(self) -> bool {
        self.payload().wf()
    }
}

impl SstMetaData {
    /// An envelope value is well formed when its mathematical value is.
    pub open spec fn wf(&self) -> bool {
        self@.wf()
    }

    /// The table schema the file was written with.
    pub fn schema(&self) -> (r: &Schema)
        ensures
            r@ == self@.payload().schema,
    {
        match self {
            SstMetaData::Parquet(v) => &v.schema,
        }
    }

    /// The `[min, max)` timestamp bounds of the rows of the file.
    pub fn time_range(&self) -> (r: TimeRange)
        ensures
            r == self@.payload().time_range,
    {
        match self {
            SstMetaData::Parquet(v) => v.time_range,
        }
    }

    /// The highest write sequence number committed into the file.
    pub fn max_sequence(&self) -> (r: SequenceNumber)
        ensures
            r == self@.payload().max_sequence,
    {
        match self {
            SstMetaData::Parquet(v) => v.max_sequence,
        }
    }

    /// Narrows the envelope to its columnar payload. Total over every
    /// constructed envelope: the current format is the columnar one.
    pub fn as_parquet(&self) -> (r: Option<ParquetMetaDataRef>)
        ensures
            r matches Some(p) && (*p)@ == self@.payload(),
    {
        match self {
            SstMetaData::Parquet(v) => Some(clone_meta_ref(v)),
        }
    }
}

impl Clone for SstMetaData {
    /// The clone of an envelope shares the same underlying payload.
    fn clone(&self) -> (r: Self)
        ensures
            r == *self,
    {
        match self {
            SstMetaData::Parquet(v) => SstMetaData::Parquet(clone_meta_ref(v)),
        }
    }
}

/// The common metadata subset handed to the file writer: key bounds, time
/// range, highest sequence and schema, without format-specific statistics.
#[derive(Debug, PartialEq)]
pub struct MetaData {
    pub min_key: Vec<u8>,
    pub max_key: Vec<u8>,
    pub time_range: TimeRange,
    pub max_sequence: SequenceNumber,
    pub schema: Schema,
}

impl MetaData {
    /// Projects an envelope onto the common writer subset.
    pub fn from_sst_meta(meta: &SstMetaData) -> (r: MetaData)
        ensures
            r.min_key@ == meta@.payload().min_key,
            r.max_key@ == meta@.payload().max_key,
            r.time_range == meta@.payload().time_range,
            r.max_sequence == meta@.payload().max_sequence,
            r.schema@ == meta@.payload().schema,
    {
        match meta {
            SstMetaData::Parquet(v) => MetaData {
                min_key: clone_bytes(&v.min_key),
                max_key: clone_bytes(&v.max_key),
                time_range: v.time_range,
                max_sequence: v.max_sequence,
                schema: v.schema.clone(),
            },
        }
    }
}

} // verus!
