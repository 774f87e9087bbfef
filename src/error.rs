use crate::index::H3Index;
use vstd::prelude::*;

verus! {

/// The closed set of failures that crossing into the grid engine can produce.
#[allow(inconsistent_fields)]
#[derive(Debug, Clone, PartialEq, Eq)]
pub enum Error {
    /// The raw integer was refused by the engine's validity predicate.
    InvalidIndex { value: u64 },
    /// The text held a NUL byte, or the engine parsed it to the zero sentinel.
    InvalidString { value: String },
    /// Indexing a coordinate, or asking for a parent, gave the zero sentinel.
    FailedConversion,
    /// The engine reported a negative distance between the two indexes.
    IncompatibleIndexes { left: H3Index, right: H3Index },
}

} // verus!
