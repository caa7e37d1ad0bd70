//! File identity and per-file read hints.
//!
//! A data file is identified permanently by the triple
//! `(space_id, table_id, file_id)`; the triple doubles as the cache key and
//! as the basis of the file's durable storage path.

use vstd::prelude::*;

verus! {

/// Identifier of a space (the top-level grouping of tables).
pub type SpaceId = u32;

/// Identifier of a table within a space.
pub type TableId = u64;

/// Identifier of a data file within a table.
pub type FileId = u64;

/// Monotonically increasing identifier assigned to writes; files record the
/// highest sequence number committed into them.
pub type SequenceNumber = u64;

/// The durable path of a data file, kept in its structural form: the
/// identity triple from which the textual path is rendered at the storage
/// boundary.
#[derive(Debug, Clone, Copy, PartialEq, Eq, Hash, Structural)]
pub struct SstFilePath {
    pub space_id: SpaceId,
    pub table_id: TableId,
    pub file_id: FileId,
}

impl SstFilePath {
    /// The textual form of the path: `space/table/file.sst`, each id in
    /// decimal.
    pub open spec fn spec_text(self) -> Seq<char> {
        dec_digits(self.space_id as nat) + "/"@ + dec_digits(self.table_id as nat) + "/"@
            + dec_digits(self.file_id as nat) + ".sst"@
    }

    /// Renders the path as text for the storage layer.
    pub fn text(&self) -> (r: String)
        ensures
            r@ == self.spec_text(),
    {
        let mut s = u64_to_dec(self.space_id as u64);
        let sep: String = "/".to_owned();
        let table = u64_to_dec(self.table_id);
        let file = u64_to_dec(self.file_id);
        let suffix: String = ".sst".to_owned();
        s.append(sep.as_str());
        s.append(table.as_str());
        s.append(sep.as_str());
        s.append(file.as_str());
        s.append(suffix.as_str());
        s
    }
}

/// Derives the durable path of the file `file_id` of table `table_id` in
/// space `space_id`.
pub fn new_sst_file_path(space_id: SpaceId, table_id: TableId, file_id: FileId) -> (path:
    SstFilePath)
    ensures
        path == (SstFilePath { space_id, table_id, file_id }),
{
    SstFilePath { space_id, table_id, file_id }
}

/// The character of one decimal digit.
pub open spec fn digit_char(d: nat) -> char {
    if d == 0 {
        '0'
    } else if d == 1 {
        '1'
    } else if d == 2 {
        '2'
    } else if d == 3 {
        '3'
    } else if d == 4 {
        '4'
    } else if d == 5 {
        '5'
    } else if d == 6 {
        '6'
    } else if d == 7 {
        '7'
    } else if d == 8 {
        '8'
    } else {
        '9'
    }
}

/// The decimal digits of `n`, most significant first, without leading
/// zeros (`0` itself is the single digit `0`).
pub open spec fn dec_digits(n: nat) -> Seq<char>
    decreases n,
{
    if n < 10 {
        seq![digit_char(n)]
    } else {
        dec_digits(n / 10).push(digit_char(n % 10))
    }
}

fn digit_str(d: u64) -> (r: String)
    requires
        d < 10,
    ensures
        r@ == seq![digit_char(d as nat)],
{
    let r: String = if d == 0 {
        "0".to_owned()
    } else if d == 1 {
        "1".to_owned()
    } else if d == 2 {
        "2".to_owned()
    } else if d == 3 {
        "3".to_owned()
    } else if d == 4 {
        "4".to_owned()
    } else if d == 5 {
        "5".to_owned()
    } else if d == 6 {
        "6".to_owned()
    } else if d == 7 {
        "7".to_owned()
    } else if d == 8 {
        "8".to_owned()
    } else {
        "9".to_owned()
    };
    proof {
        reveal_strlit("0");
        reveal_strlit("1");
        reveal_strlit("2");
        reveal_strlit("3");
        reveal_strlit("4");
        reveal_strlit("5");
        reveal_strlit("6");
        reveal_strlit("7");
        reveal_strlit("8");
        reveal_strlit("9");
        assert(r@ =~= seq![digit_char(d as nat)]);
    }
    r
}

/// Renders `n` in decimal.
fn u64_to_dec(n: u64) -> (r: String)
    ensures
        r@ == dec_digits(n as nat),
    decreases n,
{
    if n < 10 {
        digit_str(n)
    } else {
        let mut s = u64_to_dec(n / 10);
        let tail = digit_str(n % 10);
        s.append(tail.as_str());
        s
    }
}

/// On-disk layout of a data file. Exactly one layout exists today; the
/// enum keeps the door open for further layouts without breaking readers
/// of the common metadata fields.
#[derive(Debug, Clone, Copy, PartialEq, Eq, Structural)]
pub enum StorageFormat {
    Columnar,
}

/// Per-file hint handed to the reader factory: what is already known about
/// the file before it is opened.
#[derive(Debug, Clone, Copy)]
pub struct SstReadHint {
    pub file_size: Option<u64>,
    pub file_format: Option<StorageFormat>,
}

/// Handle of one data file as the engine tracks it: stable id, byte size
/// and storage format.
#[derive(Debug, Clone, Copy)]
pub struct FileHandle {
    pub id: FileId,
    pub size: u64,
    pub format: StorageFormat,
}

impl FileHandle {
    /// Stable id of the file.
    pub fn id(&self) -> (r: FileId)
        ensures
            r == self.id,
    {
        self.id
    }

    /// Size of the file in bytes.
    pub fn size(&self) -> (r: u64)
        ensures
            r == self.size,
    {
        self.size
    }

    /// Storage format of the file.
    pub fn storage_format(&self) -> (r: StorageFormat)
        ensures
            r == self.format,
    {
        self.format
    }

    /// The read hint derived from this handle: size and format are both
    /// known.
    pub fn read_hint(&self) -> (r: SstReadHint)
        ensures
            r == (SstReadHint { file_size: Some(self.size), file_format: Some(self.format) }),
    {
        SstReadHint { file_size: Some(self.size), file_format: Some(self.format) }
    }
}

} // verus!
