use vstd::prelude::*;

verus! {

/// Everything that can stop the runner. Each variant names the operation
/// that failed; the `source` field carries the collaborator's own account
/// of the failure. The runner never retries: every error is fatal and is
/// handed unchanged to the caller, which is expected to restart the whole
/// process and re-enter recovery.
///
/// `ParentIdMismatchError` is the one error the runner detects itself: the
/// log delivered an event that does not chain from the last consumed one.
/// It is a corruption condition, not a transient failure, and carries both
/// the expected and the actual identifier.
#[derive(Clone, PartialEq, Eq, Debug)]
pub enum RunnerError {
    CreateSessionError { source: String },
    AdvanceError { source: String },
    FinishEpochError { source: String },
    GetEpochClaimError { source: String },
    FindFinishEpochInputError { source: String },
    ConsumeInputError { source: String },
    PeekClaimError { source: String },
    ProduceClaimError { source: String },
    GetStorageDirectoryError { source: String },
    GetLatestSnapshotError { source: String },
    SetLatestSnapshotError { source: String },
    ParentIdMismatchError { expected: String, got: String },
}

} // verus!
