//! Handles for feeding diagnostic data to a metric evaluator.
//!
//! The host program that embeds the execution scope also evaluates metric
//! expressions over diagnostic snapshots.  That evaluation engine is a
//! separate component with its own arithmetic and is not verified here;
//! this module keeps only the data handles at its boundary, so that callers
//! can hand a body of diagnostic documents to the engine.

use vstd::prelude::*;

verus! {

/// A store of diagnostic documents, each the raw text of one inspect
/// snapshot, out of which a metric evaluator selects values.
pub struct InspectFetcher {
    /// The raw documents, in the order they were loaded.
    pub documents: Vec<String>,
}

/// The operations a metric expression may apply to its operands.
#[derive(Clone, Debug, PartialEq, Eq)]
pub enum Function {
    Add,
    Sub,
    Mul,
    FloatDiv,
    IntDiv,
    Greater,
    Less,
    GreaterEq,
    LessEq,
    Equals,
    NotEq,
    Max,
    Min,
    And,
    Or,
    Not,
}

/// Fetches metric values out of diagnostic data loaded from files.
pub struct FileDataFetcher<'a> {
    inspect: &'a InspectFetcher,
}

impl<'a> FileDataFetcher<'a> {
    /// The store this fetcher reads from.
    pub closed spec fn source(&self) -> InspectFetcher {
        *self.inspect
    }

    /// A fetcher reading from the given diagnostic documents.
    pub fn new(inspect: &'a InspectFetcher) -> (r: FileDataFetcher<'a>)
        ensures
            r.source() == *inspect,
    {
        FileDataFetcher { inspect }
    }
}

} // verus!
