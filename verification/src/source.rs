//! The boundary to the per-file metadata readers.
//!
//! The engine obtains a file's metadata through a reader built by an
//! external factory; resolving one file means deriving its path, building
//! a read hint, creating the reader and asking it for the decoded
//! envelope. [`MetaSource`] stands for that whole step: implementations
//! are the real factory-backed readers, or in-memory sources for tests.
//! Each implementation keeps a ghost log of the requests it served, so
//! callers can state exactly which fetches a batch performed and in what
//! order.

use crate::meta_data::{Error, SstMetaData};
use crate::types::{SstFilePath, SstReadHint};
use vstd::prelude::*;

verus! {

/// Failure of one per-file resolution, before the file path is attached.
#[derive(Debug, PartialEq)]
pub enum SourceError {
    /// The factory could not produce a reader.
    CreateReader { detail: String },
    /// The reader could not resolve the metadata.
    ReadMeta { detail: String },
    /// The object store failed underneath the reader.
    Store { detail: String },
}

impl SourceError {
    /// The library error this failure surfaces as, carrying the offending
    /// file path.
    pub open spec fn to_error(self, path: SstFilePath) -> Error {
        match self {
            SourceError::CreateReader { detail } => Error::CreateSstReader { path, detail },
            SourceError::ReadMeta { detail } => Error::ReadMetaData { path, detail },
            SourceError::Store { detail } => Error::FetchFromStore { path, detail },
        }
    }

    /// Attaches the offending file path, yielding the library error.
    pub fn into_error(self, path: SstFilePath) -> (r: Error)
        ensures
            r == self.to_error(path),
    {
        match self {
            SourceError::CreateReader { detail } => Error::CreateSstReader { path, detail },
            SourceError::ReadMeta { detail } => Error::ReadMetaData { path, detail },
            SourceError::Store { detail } => Error::FetchFromStore { path, detail },
        }
    }
}

/// One served request in a source's ghost log: the path asked for, the
/// read hint handed along, and the outcome handed back.
pub ghost struct SourceEvent {
    pub path: SstFilePath,
    pub hint: SstReadHint,
    pub outcome: Result<SstMetaData, SourceError>,
}

/// A per-file metadata source: derives the file's durable location from
/// the given path, reads and decodes its metadata. An implementation may
/// be backed by real storage, so two reads of the same path may differ;
/// the ghost log records what each read returned.
pub trait MetaSource {
    /// Invariant of the implementation.
    spec fn inv(&self) -> bool;

    /// The requests served so far, in order.
    spec fn log(&self) -> Seq<SourceEvent>;

    /// Resolves the metadata of the file at `path`. Appends exactly one
    /// event to the log; a returned envelope is well formed (it came from
    /// a validating decode).
    fn read_meta(&mut self, path: SstFilePath, hint: SstReadHint) -> (r: Result<
        SstMetaData,
        SourceError,
    >)
        requires
            old(self).inv(),
        ensures
            final(self).inv(),
            final(self).log() == old(self).log().push(SourceEvent { path, hint, outcome: r }),
            r matches Ok(m) ==> m.wf(),
    ;
}

/// A deterministic in-memory source: hands out a fixed list of outcomes,
/// front to back, whatever the path. Serves tests and in-process callers
/// that already hold the metadata.
pub struct ScriptedSource {
    script: Vec<Result<SstMetaData, SourceError>>,
    log: Ghost<Seq<SourceEvent>>,
}

impl ScriptedSource {
    /// The outcomes not yet handed out, in order.
    pub closed spec fn spec_script(&self) -> Seq<Result<SstMetaData, SourceError>> {
        self.script@
    }

    /// A source that will hand out `script`, front to back. Every
    /// successful outcome must hold a well-formed envelope.
    pub fn new(script: Vec<Result<SstMetaData, SourceError>>) -> (r: ScriptedSource)
        requires
            forall|i: int| 0 <= i < script@.len() ==> ((#[trigger] script@[i]) matches Ok(m)
                ==> m.wf()),
        ensures
            r.inv(),
            r.spec_script() == script@,
            r.log() == Seq::<SourceEvent>::empty(),
    {
        ScriptedSource { script, log: Ghost(Seq::empty()) }
    }

    /// Number of outcomes not yet handed out.
    pub fn remaining(&self) -> (r: usize)
        ensures
            r == self.spec_script().len(),
    {
        self.script.len()
    }
}

impl MetaSource for ScriptedSource {
    /// Every scripted success holds a well-formed envelope.
    closed spec fn inv(&self) -> bool {
        forall|i: int| 0 <= i < self.script@.len() ==> ((#[trigger] self.script@[i]) matches Ok(m)
            ==> m.wf())
    }

    closed spec fn log(&self) -> Seq<SourceEvent> {
        self.log@
    }

    /// Hands out the next scripted outcome; an exhausted script reads as a
    /// reader failure.
    fn read_meta(&mut self, path: SstFilePath, hint: SstReadHint) -> (r: Result<
        SstMetaData,
        SourceError,
    >)
        ensures
            old(self).spec_script().len() > 0 ==> r == old(self).spec_script()[0] && final(self).spec_script() == old(self).spec_script().drop_first(),
            old(self).spec_script().len() == 0 ==> final(self).spec_script() == old(self).spec_script() && (r matches Err(e) && e matches SourceError::ReadMeta { detail }
                && detail@ == "no further scripted outcome"@),
    {
        let r = if self.script.len() == 0 {
            Err(SourceError::ReadMeta { detail: "no further scripted outcome".to_owned() })
        } else {
            let ghost s0 = self.script@;
            let head = self.script.remove(0);
            proof {
                assert(self.script@ =~= s0.drop_first());
                assert(forall|i: int|
                    0 <= i < self.script@.len() ==> self.script@[i] == (#[trigger] s0[i + 1]));
            }
            head
        };
        self.log = Ghost(self.log@.push(SourceEvent { path, hint, outcome: r }));
        r
    }
}

} // verus!
