//! The logical column schema of a table at write time.
//!
//! A file's schema never changes after the file is written; the envelope
//! carries it so that planning and compaction can read it without opening
//! the file.

use vstd::prelude::*;

verus! {

/// Logical type of a column value.
#[derive(Debug, Clone, Copy, PartialEq, Eq, Structural)]
pub enum DatumKind {
    Timestamp,
    Varbinary,
    Text,
    UInt64,
    Int64,
    Boolean,
}

/// One column of the schema.
#[derive(Debug, PartialEq)]
pub struct ColumnSchema {
    pub id: u32,
    pub name: String,
    pub data_type: DatumKind,
    pub is_nullable: bool,
    pub is_tag: bool,
}

/// Mathematical value of a [`ColumnSchema`].
#[verifier::ext_equal]
pub ghost struct ColumnSchemaV {
    pub id: u32,
    pub name: Seq<char>,
    pub data_type: DatumKind,
    pub is_nullable: bool,
    pub is_tag: bool,
}

impl View for ColumnSchema {
    type V = ColumnSchemaV;

    open spec fn view(&self) -> ColumnSchemaV {
        ColumnSchemaV {
            id: self.id,
            name: self.name@,
            data_type: self.data_type,
            is_nullable: self.is_nullable,
            is_tag: self.is_tag,
        }
    }
}

impl Clone for ColumnSchema {
    /// The clone of a column keeps every field.
    fn clone(&self) -> (r: Self)
        ensures
            r@ == self@,
    {
        ColumnSchema {
            id: self.id,
            name: self.name.clone(),
            data_type: self.data_type,
            is_nullable: self.is_nullable,
            is_tag: self.is_tag,
        }
    }
}

/// The table schema: its columns in declaration order, and the index of the
/// column that holds the row timestamp.
#[derive(Debug, PartialEq)]
pub struct Schema {
    pub timestamp_index: usize,
    pub columns: Vec<ColumnSchema>,
}

/// Mathematical value of a [`Schema`].
#[verifier::ext_equal]
pub ghost struct SchemaV {
    pub timestamp_index: usize,
    pub columns: Seq<ColumnSchemaV>,
}

impl View for Schema {
    type V = SchemaV;

    open spec fn view(&self) -> SchemaV {
        SchemaV {
            timestamp_index: self.timestamp_index,
            columns: self.columns@.map_values(|c: ColumnSchema| c@),
        }
    }
}

impl SchemaV {
    /// A schema is well formed when its timestamp index names an existing
    /// column and that column holds timestamps.
    pub open spec fn wf(self) -> bool {
        &&& 0 <= self.timestamp_index < self.columns.len()
        &&& self.columns[self.timestamp_index as int].data_type == DatumKind::Timestamp
    }
}

impl Schema {
    /// A schema value is well formed when its mathematical value is.
    pub open spec fn wf(&self) -> bool {
        self@.wf()
    }

    /// Number of columns.
    pub fn num_columns(&self) -> (r: usize)
        ensures
            r == self@.columns.len(),
    {
        self.columns.len()
    }
}

impl Clone for Schema {
    /// The clone of a schema keeps the timestamp index and every column.
    fn clone(&self) -> (r: Self)
        ensures
            r@ == self@,
    {
        let mut columns: Vec<ColumnSchema> = Vec::new();
        let mut i: usize = 0;
        while i < self.columns.len()
            invariant
                i <= self.columns.len(),
                columns@.len() == i,
                forall|j: int| 0 <= j < i ==> columns@[j]@ == self.columns@[j]@,
            decreases self.columns.len() - i,
        {
            columns.push(self.columns[i].clone());
            i += 1;
        }
        let r = Schema { timestamp_index: self.timestamp_index, columns };
        assert(r@.columns =~= self@.columns);
        r
    }
}

} // verus!
