//! The errors surfaced to the senders of ingestion requests.

use vstd::prelude::*;

verus! {

/// Why an ingestion request was refused. Both are the client's fault and
/// leave the record as it was.
#[derive(Clone, Copy, Debug, PartialEq, Eq, Structural)]
pub enum IngestError {
    /// The player count is malformed or negative.
    InvalidCount,
    /// The request names no known operation.
    RouteNotFound,
}

} // verus!
