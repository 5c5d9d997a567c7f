//! The ways in which indexing a block can fail.

use vstd::prelude::*;

verus! {

/// Why a step of the pipeline gave up.
#[derive(Clone, Copy, Debug, PartialEq, Eq, Structural)]
pub enum IndexerError {
    /// The database kept failing until the retry budget was spent.
    Transient,
    /// An empty batch or a record without fields was handed to the writer.
    BadInput,
    /// A receipt whose originating transaction no source could name.
    UnresolvedLineage,
    /// A variant that must not occur in a live stream.
    SchemaViolation,
    /// The stream itself is malformed.
    Upstream,
}

} // verus!
