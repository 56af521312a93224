//! The blocking-operation offload boundary. Catalog operations run on a
//! worker execution context outside the cooperative scheduler, and the
//! awaiting task receives either the operation's result or the explicit
//! news that the worker died before delivering one — never silence.

use vstd::prelude::*;
use crate::errors::CatalogError;

verus! {

/// What came back over the one-shot completion channel: the offloaded
/// operation's result, or the worker terminating abnormally.
pub enum WorkerOutcome<T> {
    Completed(T),
    Aborted,
}

/// Settles an offloaded operation for the awaiting task: a completed
/// worker hands its result through unchanged, and an aborted worker
/// surfaces as the distinct `WorkerAborted` error, never dropped.
pub fn settle_worker<T>(outcome: WorkerOutcome<T>) -> (r: Result<T, CatalogError>)
    ensures
        match outcome {
            WorkerOutcome::Completed(v) => r == Ok::<T, CatalogError>(v),
            WorkerOutcome::Aborted => r == Err::<T, CatalogError>(CatalogError::WorkerAborted),
        },
{
    match outcome {
        WorkerOutcome::Completed(v) => Ok(v),
        WorkerOutcome::Aborted => Err(CatalogError::WorkerAborted),
    }
}

} // verus!
