//! The failures that a store, and the oracle over several stores, can report.

use vstd::prelude::*;

verus! {

/// Why a store operation failed.
#[derive(Clone, Copy, Debug, PartialEq, Eq, Structural)]
pub enum StoreError {
    /// No record exists at the identifier.
    NotFound,
    /// The identifier is structurally invalid; nothing was read or written.
    InvalidIdentifier,
    /// The storage medium failed.
    BackendIo,
}

/// The outcome is the failure `e`.
pub open spec fn fails_with<T>(outcome: Result<T, StoreError>, e: StoreError) -> bool {
    outcome matches Err(f) && f == e
}

/// The backends that the oracle compares with the primary one.
#[derive(Clone, Copy, Debug, PartialEq, Eq, Structural)]
pub enum Replica {
    /// The second backend, compared first.
    Secondary,
    /// The in-memory reference store, compared last.
    Reference,
}

/// How two backends disagreed on one call.
#[derive(Clone, Copy, Debug, PartialEq, Eq, Structural)]
pub enum Divergence {
    /// One backend succeeded where the primary failed, or failed where it succeeded.
    Outcome(Replica),
    /// Both failed, with failures of different kinds.
    FailureKind(Replica),
    /// Both succeeded, with different bytes or different key sets.
    Value(Replica),
    /// The listing after a write or remove that succeeded failed on all backends.
    ListingFailed,
    /// A key is missing from the listing that follows its successful write.
    NotListed,
    /// A key is still in the listing that follows its successful removal.
    StillListed,
}

/// The divergence is one between two backends, not a fault that the listing
/// after a write or a remove shows.
pub open spec fn between_backends(divergence: Divergence) -> bool {
    divergence is Outcome || divergence is FailureKind || divergence is Value
}

/// What the oracle reports in place of a result.
#[derive(Clone, Copy, Debug, PartialEq, Eq, Structural)]
pub enum OracleError {
    /// All backends failed alike; this is the primary's failure.
    Store(StoreError),
    /// The backends disagreed: one of them is wrong.
    Inconsistent(Divergence),
}

/// The oracle found the backends to disagree.
pub open spec fn is_inconsistent<T>(outcome: Result<T, OracleError>) -> bool {
    outcome matches Err(OracleError::Inconsistent(_))
}

/// The oracle found two backends to disagree with each other.
pub open spec fn backends_disagree<T>(outcome: Result<T, OracleError>) -> bool {
    outcome matches Err(OracleError::Inconsistent(d)) && between_backends(d)
}

/// The oracle passes on the failure `e`, on which all backends agree.
pub open spec fn passes_on<T>(outcome: Result<T, OracleError>, e: StoreError) -> bool {
    outcome matches Err(OracleError::Store(f)) && f == e
}

} // verus!
