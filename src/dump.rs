//! The persisted record of a run.
use vstd::prelude::*;
use crate::timestamp::Timestamp;

verus! {

/// One rename action, carried through unchanged.
#[derive(Clone, Debug)]
pub struct Operation {
    pub source: String,
    pub target: String,
}

/// The record of a run: when it was saved, from which directory, and the
/// operations in the order in which they were performed.
pub struct OperationLog {
    pub date: String,
    pub directory: String,
    pub operations: Vec<Operation>,
}

impl OperationLog {
    /// The record of `operations`, run from `directory` at `now`.
    pub fn new(now: &Timestamp, directory: String, operations: Vec<Operation>) -> (r: OperationLog)
        requires
            now.wf(),
        ensures
            r.date@ == now.record_text(),
            r.directory@ == directory@,
            r.operations@ == operations@,
    {
        OperationLog { date: now.record_date(), directory, operations }
    }

    /// The operations of the record, in their order.
    pub fn into_operations(self) -> (r: Vec<Operation>)
        ensures
            r@ == self.operations@,
    {
        self.operations
    }
}

} // verus!
