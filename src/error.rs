//! The failures of a save or a load.
use vstd::prelude::*;

verus! {

/// What went wrong.
#[derive(Clone, Copy, Debug, PartialEq, Eq, Structural)]
pub enum ErrorKind {
    /// The current working directory could not be determined.
    EnvironmentQuery,
    /// The directory of dump files could not be created.
    DirectoryCreate,
    /// The dump file could not be created.
    FileCreate,
    /// The record could not be written into the created file.
    JsonWrite,
    /// The dump file could not be opened for reading.
    FileRead,
    /// The file's contents are not a record.
    JsonParse,
}

/// A failure, with a diagnostic text: most often the path concerned.
#[derive(Clone, Debug)]
pub struct Error {
    pub kind: ErrorKind,
    pub value: Option<String>,
}

impl Error {
    /// This error is of `kind` and carries the text `value`.
    pub open spec fn is(&self, kind: ErrorKind, value: Seq<char>) -> bool {
        &&& self.kind == kind
        &&& self.value is Some
        &&& self.value->0@ == value
    }

    pub fn new(kind: ErrorKind, value: String) -> (r: Error)
        ensures
            r.is(kind, value@),
    {
        Error { kind, value: Some(value) }
    }
}

} // verus!
