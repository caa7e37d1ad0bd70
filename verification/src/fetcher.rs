//! Batch resolution of the metadata of many files.
//!
//! The reader processes its input list in order, derives each file's
//! durable path, builds a read hint and asks the source for the file's
//! envelope. Output order is input order, and the first failure aborts the
//! whole batch: no partial result is handed to the caller.

use crate::meta_data::{Error, SstMetaData};
use crate::source::{MetaSource, SourceEvent};
use crate::types::{new_sst_file_path, FileHandle, SpaceId, SstFilePath, SstReadHint, TableId};
use vstd::prelude::*;

verus! {

/// The durable path of the file behind `f` within the given table.
pub open spec fn meta_path(space_id: SpaceId, table_id: TableId, f: FileHandle) -> SstFilePath {
    SstFilePath { space_id, table_id, file_id: f.id }
}

/// The read hint handed to the source for the file behind `f`: its size
/// and format are both known from the handle.
pub open spec fn meta_hint(f: FileHandle) -> SstReadHint {
    SstReadHint { file_size: Some(f.size), file_format: Some(f.format) }
}

/// A utility reader that fetches the metadata of many files of one table.
#[derive(Debug)]
pub struct SstMetaReader<S: MetaSource> {
    pub space_id: SpaceId,
    pub table_id: TableId,
    pub source: S,
}

impl<S: MetaSource> SstMetaReader<S> {
    /// Fetches the metadata of `files`, in order. On success the output
    /// pairs up with the input: the source was asked once per file, in
    /// input order, and answered with exactly the returned envelopes. On
    /// the first failure the whole batch aborts: the source was asked for
    /// the failing file and the files before it only, every earlier answer
    /// succeeded and is discarded, and the error carries the failing
    /// file's path.
    #[verifier::loop_isolation(false)]
    pub fn fetch_metas(&mut self, files: &Vec<FileHandle>) -> (r: Result<Vec<SstMetaData>, Error>)
        requires
            old(self).source.inv(),
        ensures
            final(self).source.inv(),
            final(self).space_id == old(self).space_id,
            final(self).table_id == old(self).table_id,
            r matches Ok(v) ==> {
                let oldlog = old(self).source.log();
                let newlog = final(self).source.log();
                &&& v@.len() == files@.len()
                &&& newlog.len() == oldlog.len() + files@.len()
                &&& forall|i: int| 0 <= i < files@.len() ==> #[trigger] newlog[oldlog.len() + i]
                    == (SourceEvent {
                    path: meta_path(old(self).space_id, old(self).table_id, files@[i]),
                    hint: meta_hint(files@[i]),
                    outcome: Ok(v@[i]),
                })
            },
            r matches Err(e) ==> {
                let oldlog = old(self).source.log();
                let newlog = final(self).source.log();
                let n = newlog.len() - oldlog.len();
                &&& 1 <= n <= files@.len()
                &&& forall|j: int| 0 <= j < n ==> (#[trigger] newlog[oldlog.len() + j]).path
                    == meta_path(old(self).space_id, old(self).table_id, files@[j])
                &&& forall|j: int| 0 <= j < n ==> (#[trigger] newlog[oldlog.len() + j]).hint
                    == meta_hint(files@[j])
                &&& forall|j: int| 0 <= j < n - 1 ==> (#[trigger] newlog[oldlog.len() + j]).outcome
                    is Ok
                &&& newlog.last().outcome matches Err(se) && e == se.to_error(
                    meta_path(old(self).space_id, old(self).table_id, files@[n - 1]),
                )
            },
    {
        let mut sst_metas: Vec<SstMetaData> = Vec::new();
        let ghost oldlog = self.source.log();
        let mut k: usize = 0;
        while k < files.len()
            invariant
                old(self).source.inv(),
                self.source.inv(),
                self.space_id == old(self).space_id,
                self.table_id == old(self).table_id,
                k <= files@.len(),
                sst_metas@.len() == k,
                self.source.log().len() == oldlog.len() + k,
                forall|i: int| 0 <= i < k ==> #[trigger] self.source.log()[oldlog.len() + i]
                    == (SourceEvent {
                    path: meta_path(old(self).space_id, old(self).table_id, files@[i]),
                    hint: meta_hint(files@[i]),
                    outcome: Ok(sst_metas@[i]),
                }),
                forall|i: int| 0 <= i < oldlog.len() ==> #[trigger] self.source.log()[i]
                    == oldlog[i],
            decreases files.len() - k,
        {
            let f = &files[k];
            let path = new_sst_file_path(self.space_id, self.table_id, f.id());
            let hint = f.read_hint();
            match self.source.read_meta(path, hint) {
                Ok(meta) => {
                    sst_metas.push(meta);
                },
                Err(e) => {
                    return Err(e.into_error(path));
                },
            }
            k += 1;
        }
        Ok(sst_metas)
    }
}

} // verus!
