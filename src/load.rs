//! The outcome of loading a dump file.
use vstd::prelude::*;
use crate::dump::{Operation, OperationLog};
use crate::error::{Error, ErrorKind};
use crate::save::{carries, lemma_save_keeps_operations, SaveAction, SaveEvent, SaveState};

verus! {

/// What came of reading and parsing the file.
pub enum LoadEvent {
    /// The file could not be opened.
    ReadFailed,
    /// The contents are not a record: malformed JSON, a missing field, a
    /// value of the wrong type.
    ParseFailed,
    /// The contents were read into this record.
    Parsed { log: OperationLog },
}

/// `r` is the outcome of a load of `path` after `e`.
pub open spec fn loads(path: Seq<char>, e: LoadEvent, r: Result<Vec<Operation>, Error>) -> bool {
    match e {
        LoadEvent::ReadFailed => r is Err && r->Err_0.is(ErrorKind::FileRead, path),
        LoadEvent::ParseFailed => r is Err && r->Err_0.is(ErrorKind::JsonParse, path),
        LoadEvent::Parsed { log } => r is Ok && r->Ok_0@ == log.operations@,
    }
}

/// The operations of the file at `path`, or the error that stopped the load:
/// all of them or none.
pub fn finish_load(path: String, e: LoadEvent) -> (r: Result<Vec<Operation>, Error>)
    ensures
        loads(path@, e, r),
{
    match e {
        LoadEvent::ReadFailed => Err(Error::new(ErrorKind::FileRead, path)),
        LoadEvent::ParseFailed => Err(Error::new(ErrorKind::JsonParse, path)),
        LoadEvent::Parsed { log } => Ok(log.into_operations()),
    }
}

/// Loading the record that a save wrote gives back the operations that the
/// save was started with, equal in content and order.
pub proof fn lemma_round_trip(
    s: SaveState,
    e: SaveEvent,
    next: SaveState,
    a: SaveAction,
    operations: Seq<Operation>,
    path: Seq<char>,
    r: Result<Vec<Operation>, Error>,
)
    requires
        carries(s, operations),
        s.steps_to(e, next, a),
        a is WriteLog,
        loads(path, LoadEvent::Parsed { log: a->WriteLog_log }, r),
    ensures
        r is Ok,
        r->Ok_0@ == operations,
{
    lemma_save_keeps_operations(s, e, next, a, operations);
}

} // verus!
