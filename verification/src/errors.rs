//! The catalog's failure taxonomy. Absence ("not found") travels as a
//! boolean and a duplicate title as a normal outcome, so only two things
//! are errors: the embedded database failing, and a worker task dying
//! before it could deliver a result.

use vstd::prelude::*;

verus! {

/// Why a catalog operation failed.
#[derive(Clone, Copy, Debug, PartialEq, Eq, Structural)]
pub enum CatalogError {
    /// The embedded database reported a failure (I/O, malformed
    /// statement, constraint violation). The operation left the store
    /// unchanged.
    Storage,
    /// The worker task running the operation terminated abnormally
    /// before delivering its result.
    WorkerAborted,
}

} // verus!
