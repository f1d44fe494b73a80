use advance_runner::data::{EpochClaim, Event, InputMetadata, RollupsData, RollupsInput, Snapshot};
use advance_runner::error::RunnerError;
use advance_runner::runner::{Action, Outcome, Runner, RunnerState};

fn metadata() -> InputMetadata {
    InputMetadata { msg_sender: vec![0xfe; 20], block_number: 42, timestamp: 1_650_000_000 }
}

fn advance_event(id: &str, parent: &str, epoch: u64, count: u64) -> Event {
    Event {
        id: id.to_string(),
        payload: RollupsInput {
            parent_id: parent.to_string(),
            epoch_index: epoch,
            inputs_sent_count: count,
            data: RollupsData::AdvanceStateInput {
                metadata: metadata(),
                payload: vec![1, 2, 3],
            },
        },
    }
}

fn finish_event(id: &str, parent: &str, epoch: u64, count: u64) -> Event {
    Event {
        id: id.to_string(),
        payload: RollupsInput {
            parent_id: parent.to_string(),
            epoch_index: epoch,
            inputs_sent_count: count,
            data: RollupsData::FinishEpoch,
        },
    }
}

/// Drives a fresh runner through recovery: snapshot `(path, epoch)` is the
/// latest one, and the log locates `resume_id` as the finish-epoch event the
/// snapshot corresponds to.
fn recovered(path: &str, epoch: u64, resume_id: &str) -> Runner {
    let (runner, action) = Runner::start();
    assert_eq!(action, Action::GetLatestSnapshot);
    let (runner, action) =
        runner.step(Outcome::Snapshot(Snapshot { path: path.to_string(), epoch }));
    assert_eq!(action, Ok(Action::FindPreviousFinishEpoch { epoch }));
    let (runner, action) = runner.step(Outcome::EventId(resume_id.to_string()));
    assert_eq!(
        action,
        Ok(Action::StartSession { snapshot_path: path.to_string(), epoch })
    );
    let (runner, action) = runner.step(Outcome::Done);
    assert_eq!(action, Ok(Action::ConsumeInput { last_id: resume_id.to_string() }));
    runner
}

#[test]
fn recovery_resumes_from_snapshot() {
    let runner = recovered("snapshots/3", 3, "finish-2");
    assert_eq!(
        runner.state,
        RunnerState::AwaitingEvent { last_consumed_id: "finish-2".to_string() }
    );
}

#[test]
fn recovery_is_deterministic_across_reruns() {
    let first = recovered("snapshots/5", 5, "finish-4");
    let second = recovered("snapshots/5", 5, "finish-4");
    assert_eq!(first.state, second.state);
}

#[test]
fn advance_input_index_is_count_minus_one() {
    let runner = recovered("snapshots/3", 3, "finish-2");
    let event = advance_event("input-1", "finish-2", 3, 1);
    let (_, action) = runner.step(Outcome::NextEvent(event));
    assert_eq!(
        action,
        Ok(Action::AdvanceState {
            active_epoch_index: 3,
            current_input_index: 0,
            metadata: metadata(),
            payload: vec![1, 2, 3],
        })
    );
}

#[test]
fn advance_input_index_for_later_inputs() {
    let runner = recovered("snapshots/3", 3, "finish-2");
    let event = advance_event("input-5", "finish-2", 3, 5);
    let (_, action) = runner.step(Outcome::NextEvent(event));
    assert_eq!(
        action,
        Ok(Action::AdvanceState {
            active_epoch_index: 3,
            current_input_index: 4,
            metadata: metadata(),
            payload: vec![1, 2, 3],
        })
    );
}

#[test]
fn finish_requests_snapshot_for_next_epoch() {
    let runner = recovered("snapshots/7", 7, "input-9");
    let event = finish_event("finish-7", "input-9", 7, 10);
    let (runner, action) = runner.step(Outcome::NextEvent(event));
    assert_eq!(action, Ok(Action::GetStorageDirectory { epoch: 8 }));
    let allocated = Snapshot { path: "snapshots/8".to_string(), epoch: 8 };
    let (runner, action) = runner.step(Outcome::Snapshot(allocated.clone()));
    assert_eq!(
        action,
        Ok(Action::FinishEpoch { epoch_index: 7, snapshot_path: "snapshots/8".to_string() })
    );
    let (_, action) = runner.step(Outcome::Done);
    assert_eq!(action, Ok(Action::SetLatestSnapshot { snapshot: allocated }));
}

#[test]
fn claim_already_produced_skips_production() {
    let runner = recovered("snapshots/7", 7, "input-9");
    let (runner, _) = runner.step(Outcome::NextEvent(finish_event("finish-7", "input-9", 7, 10)));
    let (runner, _) =
        runner.step(Outcome::Snapshot(Snapshot { path: "snapshots/8".to_string(), epoch: 8 }));
    let (runner, _) = runner.step(Outcome::Done);
    let (runner, action) = runner.step(Outcome::Done);
    assert_eq!(action, Ok(Action::WasClaimProduced { epoch_index: 7 }));
    let (_, action) = runner.step(Outcome::ClaimWasProduced(true));
    assert_eq!(action, Ok(Action::ConsumeInput { last_id: "finish-7".to_string() }));
}

#[test]
fn claim_absent_is_produced_exactly_once() {
    let runner = recovered("snapshots/7", 7, "input-9");
    let (runner, _) = runner.step(Outcome::NextEvent(finish_event("finish-7", "input-9", 7, 10)));
    let (runner, _) =
        runner.step(Outcome::Snapshot(Snapshot { path: "snapshots/8".to_string(), epoch: 8 }));
    let (runner, _) = runner.step(Outcome::Done);
    let (runner, _) = runner.step(Outcome::Done);
    let (runner, action) = runner.step(Outcome::ClaimWasProduced(false));
    assert_eq!(action, Ok(Action::GetEpochClaim { epoch_index: 7 }));
    let claim = EpochClaim { hash: vec![0xaa; 32] };
    let (runner, action) = runner.step(Outcome::Claim(claim.clone()));
    assert_eq!(action, Ok(Action::ProduceRollupsClaim { epoch_index: 7, claim }));
    let (_, action) = runner.step(Outcome::Done);
    assert_eq!(action, Ok(Action::ConsumeInput { last_id: "finish-7".to_string() }));
}

#[test]
fn parent_id_mismatch_fails_without_dispatch() {
    let runner = recovered("snapshots/3", 3, "Y");
    let event = advance_event("input-1", "X", 3, 1);
    let (runner, action) = runner.step(Outcome::NextEvent(event));
    assert_eq!(
        action,
        Err(RunnerError::ParentIdMismatchError {
            expected: "Y".to_string(),
            got: "X".to_string(),
        })
    );
    assert_eq!(runner.state, RunnerState::Failed);
}

#[test]
fn chained_events_are_consumed_in_order() {
    let runner = recovered("snapshots/3", 3, "finish-2");
    let (runner, _) = runner.step(Outcome::NextEvent(advance_event("a-1", "finish-2", 3, 1)));
    let (runner, action) = runner.step(Outcome::Done);
    assert_eq!(action, Ok(Action::ConsumeInput { last_id: "a-1".to_string() }));
    let (runner, _) = runner.step(Outcome::NextEvent(advance_event("a-2", "a-1", 3, 2)));
    let (_, action) = runner.step(Outcome::Done);
    assert_eq!(action, Ok(Action::ConsumeInput { last_id: "a-2".to_string() }));
}

#[test]
fn end_to_end_epoch_three() {
    // Snapshot {epoch: 3} exists; the log holds finish-epoch event F2, one
    // advance event with inputs_sent_count = 1, and finish-epoch event F3.
    let (runner, action) = Runner::start();
    assert_eq!(action, Action::GetLatestSnapshot);
    let (runner, action) =
        runner.step(Outcome::Snapshot(Snapshot { path: "snapshots/3".to_string(), epoch: 3 }));
    assert_eq!(action, Ok(Action::FindPreviousFinishEpoch { epoch: 3 }));
    let (runner, action) = runner.step(Outcome::EventId("F2".to_string()));
    assert_eq!(
        action,
        Ok(Action::StartSession { snapshot_path: "snapshots/3".to_string(), epoch: 3 })
    );
    let (runner, action) = runner.step(Outcome::Done);
    assert_eq!(action, Ok(Action::ConsumeInput { last_id: "F2".to_string() }));

    // The advance event is dispatched at epoch 3, index 0.
    let (runner, action) = runner.step(Outcome::NextEvent(advance_event("A", "F2", 3, 1)));
    assert_eq!(
        action,
        Ok(Action::AdvanceState {
            active_epoch_index: 3,
            current_input_index: 0,
            metadata: metadata(),
            payload: vec![1, 2, 3],
        })
    );
    let (runner, action) = runner.step(Outcome::Done);
    assert_eq!(action, Ok(Action::ConsumeInput { last_id: "A".to_string() }));

    // F3 closes epoch 3: allocate for epoch 4, checkpoint, persist, then
    // check for and produce the epoch-3 claim.
    let (runner, action) = runner.step(Outcome::NextEvent(finish_event("F3", "A", 3, 1)));
    assert_eq!(action, Ok(Action::GetStorageDirectory { epoch: 4 }));
    let allocated = Snapshot { path: "snapshots/4".to_string(), epoch: 4 };
    let (runner, action) = runner.step(Outcome::Snapshot(allocated.clone()));
    assert_eq!(
        action,
        Ok(Action::FinishEpoch { epoch_index: 3, snapshot_path: "snapshots/4".to_string() })
    );
    let (runner, action) = runner.step(Outcome::Done);
    assert_eq!(action, Ok(Action::SetLatestSnapshot { snapshot: allocated }));
    let (runner, action) = runner.step(Outcome::Done);
    assert_eq!(action, Ok(Action::WasClaimProduced { epoch_index: 3 }));
    let (runner, action) = runner.step(Outcome::ClaimWasProduced(false));
    assert_eq!(action, Ok(Action::GetEpochClaim { epoch_index: 3 }));
    let claim = EpochClaim { hash: vec![0x11; 32] };
    let (runner, action) = runner.step(Outcome::Claim(claim.clone()));
    assert_eq!(action, Ok(Action::ProduceRollupsClaim { epoch_index: 3, claim }));
    let (runner, action) = runner.step(Outcome::Done);
    assert_eq!(action, Ok(Action::ConsumeInput { last_id: "F3".to_string() }));
    assert_eq!(
        runner.state,
        RunnerState::AwaitingEvent { last_consumed_id: "F3".to_string() }
    );
}

#[test]
fn recovery_failures_are_fatal() {
    let (runner, _) = Runner::start();
    let (runner, action) = runner.step(Outcome::Failed("store down".to_string()));
    assert_eq!(
        action,
        Err(RunnerError::GetLatestSnapshotError { source: "store down".to_string() })
    );
    assert_eq!(runner.state, RunnerState::Failed);

    let (runner, _) = Runner::start();
    let (runner, _) =
        runner.step(Outcome::Snapshot(Snapshot { path: "snapshots/3".to_string(), epoch: 3 }));
    let (_, action) = runner.step(Outcome::Failed("no finish event".to_string()));
    assert_eq!(
        action,
        Err(RunnerError::FindFinishEpochInputError { source: "no finish event".to_string() })
    );

    let (runner, _) = Runner::start();
    let (runner, _) =
        runner.step(Outcome::Snapshot(Snapshot { path: "snapshots/3".to_string(), epoch: 3 }));
    let (runner, _) = runner.step(Outcome::EventId("F2".to_string()));
    let (_, action) = runner.step(Outcome::Failed("session refused".to_string()));
    assert_eq!(
        action,
        Err(RunnerError::CreateSessionError { source: "session refused".to_string() })
    );
}

#[test]
fn steady_state_failures_are_fatal() {
    let runner = recovered("snapshots/3", 3, "finish-2");
    let (_, action) = runner.step(Outcome::Failed("log gone".to_string()));
    assert_eq!(action, Err(RunnerError::ConsumeInputError { source: "log gone".to_string() }));

    let runner = recovered("snapshots/3", 3, "finish-2");
    let (runner, _) = runner.step(Outcome::NextEvent(advance_event("a-1", "finish-2", 3, 1)));
    let (_, action) = runner.step(Outcome::Failed("input rejected".to_string()));
    assert_eq!(action, Err(RunnerError::AdvanceError { source: "input rejected".to_string() }));
}

#[test]
fn finish_path_failures_are_fatal() {
    let runner = recovered("snapshots/7", 7, "input-9");
    let (at_storage, _) =
        runner.step(Outcome::NextEvent(finish_event("finish-7", "input-9", 7, 10)));
    let (_, action) = at_storage.clone().step(Outcome::Failed("full".to_string()));
    assert_eq!(
        action,
        Err(RunnerError::GetStorageDirectoryError { source: "full".to_string() })
    );
    let (at_finish, _) = at_storage
        .step(Outcome::Snapshot(Snapshot { path: "snapshots/8".to_string(), epoch: 8 }));
    let (_, action) = at_finish.clone().step(Outcome::Failed("crash".to_string()));
    assert_eq!(action, Err(RunnerError::FinishEpochError { source: "crash".to_string() }));
    let (at_set_latest, _) = at_finish.step(Outcome::Done);
    let (_, action) =
        at_set_latest.clone().step(Outcome::Failed("pointer".to_string()));
    assert_eq!(
        action,
        Err(RunnerError::SetLatestSnapshotError { source: "pointer".to_string() })
    );
    let (at_check, _) = at_set_latest.step(Outcome::Done);
    let (_, action) = at_check.clone().step(Outcome::Failed("peek".to_string()));
    assert_eq!(action, Err(RunnerError::PeekClaimError { source: "peek".to_string() }));
    let (at_claim, _) = at_check.step(Outcome::ClaimWasProduced(false));
    let (_, action) = at_claim.clone().step(Outcome::Failed("not ready".to_string()));
    assert_eq!(
        action,
        Err(RunnerError::GetEpochClaimError { source: "not ready".to_string() })
    );
    let (at_produce, _) = at_claim.step(Outcome::Claim(EpochClaim { hash: vec![0] }));
    let (_, action) =
        at_produce.clone().step(Outcome::Failed("duplicate".to_string()));
    assert_eq!(action, Err(RunnerError::ProduceClaimError { source: "duplicate".to_string() }));
}
