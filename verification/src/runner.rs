use vstd::prelude::*;

use crate::data::{EpochClaim, Event, InputMetadata, RollupsData, RollupsInput, Snapshot};
use crate::error::RunnerError;

verus! {

/// One call the driver must make against a collaborator on the runner's
/// behalf. The runner itself performs no I/O: it answers every observed
/// `Outcome` with the next `Action`, and the driver carries it out.
#[derive(Clone, PartialEq, Eq, Debug)]
pub enum Action {
    /// Snapshot store: fetch the latest durable snapshot.
    GetLatestSnapshot,
    /// Event log: locate the finish-epoch event that precedes resuming
    /// into `epoch`, returning its id.
    FindPreviousFinishEpoch { epoch: u64 },
    /// Compute session: start from `snapshot_path` with `epoch` active.
    StartSession { snapshot_path: String, epoch: u64 },
    /// Event log: blocking read of the next event after `last_id`.
    ConsumeInput { last_id: String },
    /// Compute session: apply one input to the current epoch.
    AdvanceState {
        active_epoch_index: u64,
        current_input_index: u64,
        metadata: InputMetadata,
        payload: Vec<u8>,
    },
    /// Snapshot store: allocate a fresh writable location for `epoch`.
    GetStorageDirectory { epoch: u64 },
    /// Compute session: finish `epoch_index`, checkpointing to
    /// `snapshot_path`.
    FinishEpoch { epoch_index: u64, snapshot_path: String },
    /// Snapshot store: durably record `snapshot` as the latest one.
    SetLatestSnapshot { snapshot: Snapshot },
    /// Event log: was a claim for `epoch_index` already produced?
    WasClaimProduced { epoch_index: u64 },
    /// Compute session: retrieve the claim for `epoch_index`.
    GetEpochClaim { epoch_index: u64 },
    /// Event log: publish the claim for `epoch_index`.
    ProduceRollupsClaim { epoch_index: u64, claim: EpochClaim },
}

/// What the driver observed when it carried out the pending `Action`.
/// `Failed` reports any collaborator failure, with that collaborator's own
/// description; the runner maps it to the error variant of the operation
/// that was in flight.
#[derive(Clone, PartialEq, Eq, Debug)]
pub enum Outcome {
    Snapshot(Snapshot),
    EventId(String),
    Done,
    NextEvent(Event),
    ClaimWasProduced(bool),
    Claim(EpochClaim),
    Failed(String),
}

/// The runner's position in its protocol: each variant names the action
/// currently in flight and remembers exactly what later transitions need.
#[derive(Clone, PartialEq, Eq, Debug)]
pub enum RunnerState {
    /// Recovery: waiting for the latest snapshot.
    AwaitingSnapshot,
    /// Recovery: waiting for the id of the finish-epoch event that
    /// corresponds to `snapshot`.
    AwaitingPosition { snapshot: Snapshot },
    /// Recovery: waiting for the session to start; `last_id` is where the
    /// main loop will resume consuming.
    AwaitingSessionStart { last_id: String },
    /// Steady state: waiting for the next event after `last_consumed_id`.
    AwaitingEvent { last_consumed_id: String },
    /// Waiting for the session to acknowledge one advance-state input.
    AwaitingAdvance { event_id: String },
    /// Finishing an epoch: waiting for a fresh storage location.
    AwaitingStorage { event_id: String, epoch_index: u64 },
    /// Finishing an epoch: waiting for the session to checkpoint into
    /// `snapshot`.
    AwaitingEpochFinish { event_id: String, epoch_index: u64, snapshot: Snapshot },
    /// Finishing an epoch: waiting for the latest-snapshot pointer update.
    AwaitingSetLatest { event_id: String, epoch_index: u64 },
    /// Finishing an epoch: waiting to hear whether the claim already exists.
    AwaitingClaimCheck { event_id: String, epoch_index: u64 },
    /// Finishing an epoch: waiting for the session to hand out the claim.
    AwaitingClaim { event_id: String, epoch_index: u64 },
    /// Finishing an epoch: waiting for the claim to be published.
    AwaitingClaimProduce { event_id: String, epoch_index: u64 },
    /// A collaborator failed or the chain check tripped; the process is
    /// expected to restart and re-enter recovery.
    Failed,
}

/// The transition relation of the runner: from the state and the outcome of
/// the action in flight to the next state and either the next action or the
/// fatal error. `None` marks the pairs the protocol never produces: an
/// outcome of the wrong shape for the state, or an event whose index
/// arithmetic would leave `u64`.
pub open spec fn spec_step(state: RunnerState, outcome: Outcome) -> Option<
    (RunnerState, Result<Action, RunnerError>),
> {
    match (state, outcome) {
        (RunnerState::AwaitingSnapshot, Outcome::Snapshot(s)) => Some(
            (
                RunnerState::AwaitingPosition { snapshot: s },
                Ok(Action::FindPreviousFinishEpoch { epoch: s.epoch }),
            ),
        ),
        (RunnerState::AwaitingSnapshot, Outcome::Failed(m)) => Some(
            (RunnerState::Failed, Err(RunnerError::GetLatestSnapshotError { source: m })),
        ),
        (RunnerState::AwaitingPosition { snapshot }, Outcome::EventId(id)) => Some(
            (
                RunnerState::AwaitingSessionStart { last_id: id },
                Ok(
                    Action::StartSession {
                        snapshot_path: snapshot.path,
                        epoch: snapshot.epoch,
                    },
                ),
            ),
        ),
        (RunnerState::AwaitingPosition { .. }, Outcome::Failed(m)) => Some(
            (RunnerState::Failed, Err(RunnerError::FindFinishEpochInputError { source: m })),
        ),
        (RunnerState::AwaitingSessionStart { last_id }, Outcome::Done) => Some(
            (
                RunnerState::AwaitingEvent { last_consumed_id: last_id },
                Ok(Action::ConsumeInput { last_id }),
            ),
        ),
        (RunnerState::AwaitingSessionStart { .. }, Outcome::Failed(m)) => Some(
            (RunnerState::Failed, Err(RunnerError::CreateSessionError { source: m })),
        ),
        (RunnerState::AwaitingEvent { last_consumed_id }, Outcome::NextEvent(e)) => if e.payload.parent_id@
            != last_consumed_id@ {
            Some(
                (
                    RunnerState::Failed,
                    Err(
                        RunnerError::ParentIdMismatchError {
                            expected: last_consumed_id,
                            got: e.payload.parent_id,
                        },
                    ),
                ),
            )
        } else {
            match e.payload.data {
                RollupsData::AdvanceStateInput { metadata, payload } => if e.payload.inputs_sent_count
                    >= 1 {
                    Some(
                        (
                            RunnerState::AwaitingAdvance { event_id: e.id },
                            Ok(
                                Action::AdvanceState {
                                    active_epoch_index: e.payload.epoch_index,
                                    current_input_index: (e.payload.inputs_sent_count - 1) as u64,
                                    metadata,
                                    payload,
                                },
                            ),
                        ),
                    )
                } else {
                    None
                },
                RollupsData::FinishEpoch => if e.payload.epoch_index < u64::MAX {
                    Some(
                        (
                            RunnerState::AwaitingStorage {
                                event_id: e.id,
                                epoch_index: e.payload.epoch_index,
                            },
                            Ok(
                                Action::GetStorageDirectory {
                                    epoch: (e.payload.epoch_index + 1) as u64,
                                },
                            ),
                        ),
                    )
                } else {
                    None
                },
            }
        },
        (RunnerState::AwaitingEvent { .. }, Outcome::Failed(m)) => Some(
            (RunnerState::Failed, Err(RunnerError::ConsumeInputError { source: m })),
        ),
        (RunnerState::AwaitingAdvance { event_id }, Outcome::Done) => Some(
            (
                RunnerState::AwaitingEvent { last_consumed_id: event_id },
                Ok(Action::ConsumeInput { last_id: event_id }),
            ),
        ),
        (RunnerState::AwaitingAdvance { .. }, Outcome::Failed(m)) => Some(
            (RunnerState::Failed, Err(RunnerError::AdvanceError { source: m })),
        ),
        (RunnerState::AwaitingStorage { event_id, epoch_index }, Outcome::Snapshot(s)) => Some(
            (
                RunnerState::AwaitingEpochFinish { event_id, epoch_index, snapshot: s },
                Ok(Action::FinishEpoch { epoch_index, snapshot_path: s.path }),
            ),
        ),
        (RunnerState::AwaitingStorage { .. }, Outcome::Failed(m)) => Some(
            (RunnerState::Failed, Err(RunnerError::GetStorageDirectoryError { source: m })),
        ),
        (RunnerState::AwaitingEpochFinish { event_id, epoch_index, snapshot }, Outcome::Done) => Some(
            (
                RunnerState::AwaitingSetLatest { event_id, epoch_index },
                Ok(Action::SetLatestSnapshot { snapshot }),
            ),
        ),
        (RunnerState::AwaitingEpochFinish { .. }, Outcome::Failed(m)) => Some(
            (RunnerState::Failed, Err(RunnerError::FinishEpochError { source: m })),
        ),
        (RunnerState::AwaitingSetLatest { event_id, epoch_index }, Outcome::Done) => Some(
            (
                RunnerState::AwaitingClaimCheck { event_id, epoch_index },
                Ok(Action::WasClaimProduced { epoch_index }),
            ),
        ),
        (RunnerState::AwaitingSetLatest { .. }, Outcome::Failed(m)) => Some(
            (RunnerState::Failed, Err(RunnerError::SetLatestSnapshotError { source: m })),
        ),
        (
            RunnerState::AwaitingClaimCheck { event_id, epoch_index },
            Outcome::ClaimWasProduced(produced),
        ) => if produced {
            Some(
                (
                    RunnerState::AwaitingEvent { last_consumed_id: event_id },
                    Ok(Action::ConsumeInput { last_id: event_id }),
                ),
            )
        } else {
            Some(
                (
                    RunnerState::AwaitingClaim { event_id, epoch_index },
                    Ok(Action::GetEpochClaim { epoch_index }),
                ),
            )
        },
        (RunnerState::AwaitingClaimCheck { .. }, Outcome::Failed(m)) => Some(
            (RunnerState::Failed, Err(RunnerError::PeekClaimError { source: m })),
        ),
        (RunnerState::AwaitingClaim { event_id, epoch_index }, Outcome::Claim(c)) => Some(
            (
                RunnerState::AwaitingClaimProduce { event_id, epoch_index },
                Ok(Action::ProduceRollupsClaim { epoch_index, claim: c }),
            ),
        ),
        (RunnerState::AwaitingClaim { .. }, Outcome::Failed(m)) => Some(
            (RunnerState::Failed, Err(RunnerError::GetEpochClaimError { source: m })),
        ),
        (RunnerState::AwaitingClaimProduce { event_id, epoch_index }, Outcome::Done) => Some(
            (
                RunnerState::AwaitingEvent { last_consumed_id: event_id },
                Ok(Action::ConsumeInput { last_id: event_id }),
            ),
        ),
        (RunnerState::AwaitingClaimProduce { .. }, Outcome::Failed(m)) => Some(
            (RunnerState::Failed, Err(RunnerError::ProduceClaimError { source: m })),
        ),
        _ => None,
    }
}

/// The outcomes a state can be fed: exactly those for which the transition
/// relation is defined.
pub open spec fn accepts(state: RunnerState, outcome: Outcome) -> bool {
    spec_step(state, outcome) is Some
}

/// Whether feeding `outcome` in `state` consumes an event: the event passed
/// the chain check and is dispatched.
pub open spec fn accepted_event(state: RunnerState, outcome: Outcome) -> bool {
    &&& state matches RunnerState::AwaitingEvent { last_consumed_id }
    &&& outcome matches Outcome::NextEvent(e)
    &&& e.payload.parent_id@ == last_consumed_id@
}

/// The consumed-event history after one transition: extended exactly when
/// the transition consumed an event.
pub open spec fn consumed_after(prior: Seq<Event>, state: RunnerState, outcome: Outcome) -> Seq<
    Event,
> {
    if accepted_event(state, outcome) {
        prior.push(outcome->NextEvent_0)
    } else {
        prior
    }
}

/// The chain-integrity invariant: every consumed event names its
/// predecessor's id as its parent.
pub open spec fn chain_ok(events: Seq<Event>) -> bool {
    forall|i: int|
        1 <= i < events.len() ==> events[i].payload.parent_id@ == events[i - 1].id@
}

/// Appending an event that names the current tail's id as its parent keeps
/// the history parent-linked.
proof fn lemma_chain_ok_push(events: Seq<Event>, e: Event, last_id: Seq<char>)
    requires
        chain_ok(events),
        events.len() > 0 ==> events.last().id@ == last_id,
        e.payload.parent_id@ == last_id,
    ensures
        chain_ok(events.push(e)),
{
    let extended = events.push(e);
    assert forall|i: int| 1 <= i < extended.len() implies extended[i].payload.parent_id@
        == extended[i - 1].id@ by {
        if i < events.len() {
            assert(extended[i] == events[i]);
            assert(extended[i - 1] == events[i - 1]);
        } else {
            assert(extended[i] == e);
            assert(extended[i - 1] == events[i - 1]);
            assert(events[i - 1] == events.last());
        }
    }
}

/// The invariant tying a state to the history behind it: the history is
/// parent-linked, recovery states have consumed nothing yet, and the id
/// remembered in the state is the id of the most recently consumed event
/// (if any).
pub open spec fn linked(state: RunnerState, history: Seq<Event>) -> bool {
    &&& chain_ok(history)
    &&& match state {
        RunnerState::AwaitingSnapshot => history.len() == 0,
        RunnerState::AwaitingPosition { .. } => history.len() == 0,
        RunnerState::AwaitingSessionStart { .. } => history.len() == 0,
        RunnerState::AwaitingEvent { last_consumed_id } => history.len() > 0
            ==> history.last().id@ == last_consumed_id@,
        RunnerState::AwaitingAdvance { event_id } => history.len() > 0 && history.last().id@
            == event_id@,
        RunnerState::AwaitingStorage { event_id, .. } => history.len() > 0 && history.last().id@
            == event_id@,
        RunnerState::AwaitingEpochFinish { event_id, .. } => history.len() > 0
            && history.last().id@ == event_id@,
        RunnerState::AwaitingSetLatest { event_id, .. } => history.len() > 0
            && history.last().id@ == event_id@,
        RunnerState::AwaitingClaimCheck { event_id, .. } => history.len() > 0
            && history.last().id@ == event_id@,
        RunnerState::AwaitingClaim { event_id, .. } => history.len() > 0 && history.last().id@
            == event_id@,
        RunnerState::AwaitingClaimProduce { event_id, .. } => history.len() > 0
            && history.last().id@ == event_id@,
        RunnerState::Failed => true,
    }
}

/// The orchestration core. It holds no connection to any collaborator:
/// `consumed` is the ghost history of events dispatched so far, and `state`
/// says which call is in flight and what the next transition needs.
#[derive(Clone)]
pub struct Runner {
    pub state: RunnerState,
    pub consumed: Ghost<Seq<Event>>,
}

impl Runner {
    /// Well-formedness: the state and the consumed history satisfy
    /// `linked`.
    pub open spec fn wf(self) -> bool {
        linked(self.state, self.consumed@)
    }

    /// One transition of the runner: feed the outcome of the action in
    /// flight, get the next action to perform or the fatal error. The
    /// transition is exactly `spec_step`, and the consumed history grows by
    /// exactly the events that pass the chain check.
    pub fn step(self, outcome: Outcome) -> (r: (Runner, Result<Action, RunnerError>))
        requires
            accepts(self.state, outcome),
            self.wf(),
        ensures
            Some((r.0.state, r.1)) == spec_step(self.state, outcome),
            r.0.consumed@ == consumed_after(self.consumed@, self.state, outcome),
            r.0.wf(),
    {
        let ghost new_consumed = consumed_after(self.consumed@, self.state, outcome);
        let consumed: Ghost<Seq<Event>> = Ghost(new_consumed);
        match (self.state, outcome) {
            (RunnerState::AwaitingSnapshot, Outcome::Snapshot(s)) => {
                let epoch = s.epoch;
                (
                    Runner { state: RunnerState::AwaitingPosition { snapshot: s }, consumed },
                    Ok(Action::FindPreviousFinishEpoch { epoch }),
                )
            },
            (RunnerState::AwaitingSnapshot, Outcome::Failed(m)) => (
                Runner { state: RunnerState::Failed, consumed },
                Err(RunnerError::GetLatestSnapshotError { source: m }),
            ),
            (RunnerState::AwaitingPosition { snapshot }, Outcome::EventId(id)) => (
                Runner { state: RunnerState::AwaitingSessionStart { last_id: id }, consumed },
                Ok(
                    Action::StartSession {
                        snapshot_path: snapshot.path,
                        epoch: snapshot.epoch,
                    },
                ),
            ),
            (RunnerState::AwaitingPosition { .. }, Outcome::Failed(m)) => (
                Runner { state: RunnerState::Failed, consumed },
                Err(RunnerError::FindFinishEpochInputError { source: m }),
            ),
            (RunnerState::AwaitingSessionStart { last_id }, Outcome::Done) => {
                let resume_id = last_id.clone();
                (
                    Runner {
                        state: RunnerState::AwaitingEvent { last_consumed_id: resume_id },
                        consumed,
                    },
                    Ok(Action::ConsumeInput { last_id }),
                )
            },
            (RunnerState::AwaitingSessionStart { .. }, Outcome::Failed(m)) => (
                Runner { state: RunnerState::Failed, consumed },
                Err(RunnerError::CreateSessionError { source: m }),
            ),
            (RunnerState::AwaitingEvent { last_consumed_id }, Outcome::NextEvent(e)) => {
                if e.payload.parent_id == last_consumed_id {
                    proof {
                        lemma_chain_ok_push(self.consumed@, e, last_consumed_id@);
                    }
                    let Event { id, payload } = e;
                    let RollupsInput { parent_id: _, epoch_index, inputs_sent_count, data } =
                        payload;
                    match data {
                        RollupsData::AdvanceStateInput { metadata, payload: input_payload } => (
                            Runner {
                                state: RunnerState::AwaitingAdvance { event_id: id },
                                consumed,
                            },
                            Ok(
                                Action::AdvanceState {
                                    active_epoch_index: epoch_index,
                                    current_input_index: inputs_sent_count - 1,
                                    metadata,
                                    payload: input_payload,
                                },
                            ),
                        ),
                        RollupsData::FinishEpoch => (
                            Runner {
                                state: RunnerState::AwaitingStorage {
                                    event_id: id,
                                    epoch_index,
                                },
                                consumed,
                            },
                            Ok(Action::GetStorageDirectory { epoch: epoch_index + 1 }),
                        ),
                    }
                } else {
                    let Event { id: _, payload } = e;
                    let RollupsInput { parent_id, epoch_index: _, inputs_sent_count: _, data: _ } =
                        payload;
                    (
                        Runner { state: RunnerState::Failed, consumed },
                        Err(
                            RunnerError::ParentIdMismatchError {
                                expected: last_consumed_id,
                                got: parent_id,
                            },
                        ),
                    )
                }
            },
            (RunnerState::AwaitingEvent { .. }, Outcome::Failed(m)) => (
                Runner { state: RunnerState::Failed, consumed },
                Err(RunnerError::ConsumeInputError { source: m }),
            ),
            (RunnerState::AwaitingAdvance { event_id }, Outcome::Done) => {
                let resume_id = event_id.clone();
                (
                    Runner {
                        state: RunnerState::AwaitingEvent { last_consumed_id: resume_id },
                        consumed,
                    },
                    Ok(Action::ConsumeInput { last_id: event_id }),
                )
            },
            (RunnerState::AwaitingAdvance { .. }, Outcome::Failed(m)) => (
                Runner { state: RunnerState::Failed, consumed },
                Err(RunnerError::AdvanceError { source: m }),
            ),
            (RunnerState::AwaitingStorage { event_id, epoch_index }, Outcome::Snapshot(s)) => {
                let snapshot_path = s.path.clone();
                (
                    Runner {
                        state: RunnerState::AwaitingEpochFinish {
                            event_id,
                            epoch_index,
                            snapshot: s,
                        },
                        consumed,
                    },
                    Ok(Action::FinishEpoch { epoch_index, snapshot_path }),
                )
            },
            (RunnerState::AwaitingStorage { .. }, Outcome::Failed(m)) => (
                Runner { state: RunnerState::Failed, consumed },
                Err(RunnerError::GetStorageDirectoryError { source: m }),
            ),
            (
                RunnerState::AwaitingEpochFinish { event_id, epoch_index, snapshot },
                Outcome::Done,
            ) => (
                Runner {
                    state: RunnerState::AwaitingSetLatest { event_id, epoch_index },
                    consumed,
                },
                Ok(Action::SetLatestSnapshot { snapshot }),
            ),
            (RunnerState::AwaitingEpochFinish { .. }, Outcome::Failed(m)) => (
                Runner { state: RunnerState::Failed, consumed },
                Err(RunnerError::FinishEpochError { source: m }),
            ),
            (RunnerState::AwaitingSetLatest { event_id, epoch_index }, Outcome::Done) => (
                Runner {
                    state: RunnerState::AwaitingClaimCheck { event_id, epoch_index },
                    consumed,
                },
                Ok(Action::WasClaimProduced { epoch_index }),
            ),
            (RunnerState::AwaitingSetLatest { .. }, Outcome::Failed(m)) => (
                Runner { state: RunnerState::Failed, consumed },
                Err(RunnerError::SetLatestSnapshotError { source: m }),
            ),
            (
                RunnerState::AwaitingClaimCheck { event_id, epoch_index },
                Outcome::ClaimWasProduced(produced),
            ) => {
                if produced {
                    let resume_id = event_id.clone();
                    (
                        Runner {
                            state: RunnerState::AwaitingEvent { last_consumed_id: resume_id },
                            consumed,
                        },
                        Ok(Action::ConsumeInput { last_id: event_id }),
                    )
                } else {
                    (
                        Runner {
                            state: RunnerState::AwaitingClaim { event_id, epoch_index },
                            consumed,
                        },
                        Ok(Action::GetEpochClaim { epoch_index }),
                    )
                }
            },
            (RunnerState::AwaitingClaimCheck { .. }, Outcome::Failed(m)) => (
                Runner { state: RunnerState::Failed, consumed },
                Err(RunnerError::PeekClaimError { source: m }),
            ),
            (RunnerState::AwaitingClaim { event_id, epoch_index }, Outcome::Claim(c)) => (
                Runner {
                    state: RunnerState::AwaitingClaimProduce { event_id, epoch_index },
                    consumed,
                },
                Ok(Action::ProduceRollupsClaim { epoch_index, claim: c }),
            ),
            (RunnerState::AwaitingClaim { .. }, Outcome::Failed(m)) => (
                Runner { state: RunnerState::Failed, consumed },
                Err(RunnerError::GetEpochClaimError { source: m }),
            ),
            (RunnerState::AwaitingClaimProduce { event_id, epoch_index }, Outcome::Done) => {
                let resume_id = event_id.clone();
                (
                    Runner {
                        state: RunnerState::AwaitingEvent { last_consumed_id: resume_id },
                        consumed,
                    },
                    Ok(Action::ConsumeInput { last_id: event_id }),
                )
            },
            (RunnerState::AwaitingClaimProduce { .. }, Outcome::Failed(m)) => (
                Runner { state: RunnerState::Failed, consumed },
                Err(RunnerError::ProduceClaimError { source: m }),
            ),
            _ => {
                // The precondition admits only pairings the transition
                // relation defines; none is left here.
                proof {
                    assert(false);
                }
                (
                    Runner { state: RunnerState::Failed, consumed },
                    Err(RunnerError::ConsumeInputError { source: String::new() }),
                )
            },
        }
    }

    /// A fresh runner, about to recover: its first action fetches the
    /// latest snapshot, and nothing has been consumed.
    pub fn start() -> (r: (Runner, Action))
        ensures
            r.0.state == RunnerState::AwaitingSnapshot,
            r.0.consumed@ == Seq::<Event>::empty(),
            r.0.wf(),
            r.1 == Action::GetLatestSnapshot,
    {
        (
            Runner { state: RunnerState::AwaitingSnapshot, consumed: Ghost(Seq::empty()) },
            Action::GetLatestSnapshot,
        )
    }
}

/// Chain contiguity: every event a well-formed runner has consumed names
/// its predecessor's id as its parent, over the whole history.
pub proof fn lemma_chain_contiguity(r: Runner)
    requires
        r.wf(),
    ensures
        forall|i: int|
            1 <= i < r.consumed@.len() ==> r.consumed@[i].payload.parent_id@ == r.consumed@[i
                - 1].id@,
{
}

/// Chain contiguity, rejection side: an event whose parent id differs from
/// the last consumed id makes the runner fail at once with the mismatch
/// error carrying both identifiers, asks for no dispatch, and the event is
/// not recorded as consumed.
pub proof fn lemma_chain_mismatch_rejected(prior: Seq<Event>, last_consumed_id: String, e: Event)
    requires
        e.payload.parent_id@ != last_consumed_id@,
    ensures
        spec_step(RunnerState::AwaitingEvent { last_consumed_id }, Outcome::NextEvent(e)) == Some(
            (
                RunnerState::Failed,
                Err::<Action, RunnerError>(
                    RunnerError::ParentIdMismatchError {
                        expected: last_consumed_id,
                        got: e.payload.parent_id,
                    },
                ),
            ),
        ),
        consumed_after(
            prior,
            RunnerState::AwaitingEvent { last_consumed_id },
            Outcome::NextEvent(e),
        ) == prior,
{
}

/// Input index derivation: an advance-state event whose `inputs_sent_count`
/// is `n` is dispatched to the compute session at input index `n - 1`, with
/// its epoch, metadata and payload passed through verbatim.
pub proof fn lemma_input_index_derivation(
    last_consumed_id: String,
    id: String,
    epoch_index: u64,
    inputs_sent_count: u64,
    metadata: InputMetadata,
    payload: Vec<u8>,
)
    requires
        inputs_sent_count >= 1,
    ensures
        ({
            let e = Event {
                id,
                payload: RollupsInput {
                    parent_id: last_consumed_id,
                    epoch_index,
                    inputs_sent_count,
                    data: RollupsData::AdvanceStateInput { metadata, payload },
                },
            };
            spec_step(RunnerState::AwaitingEvent { last_consumed_id }, Outcome::NextEvent(e))
                == Some(
                (
                    RunnerState::AwaitingAdvance { event_id: id },
                    Ok::<Action, RunnerError>(
                        Action::AdvanceState {
                            active_epoch_index: epoch_index,
                            current_input_index: (inputs_sent_count - 1) as u64,
                            metadata,
                            payload,
                        },
                    ),
                ),
            )
        }),
{
}

/// Epoch offset: closing epoch `e` requests a storage location allocated
/// for epoch `e + 1`, checkpoints into exactly that location, and persists
/// exactly that snapshot as the latest one afterwards.
pub proof fn lemma_epoch_offset(
    last_consumed_id: String,
    id: String,
    epoch_index: u64,
    inputs_sent_count: u64,
    s: Snapshot,
)
    requires
        epoch_index < u64::MAX,
    ensures
        ({
            let e = Event {
                id,
                payload: RollupsInput {
                    parent_id: last_consumed_id,
                    epoch_index,
                    inputs_sent_count,
                    data: RollupsData::FinishEpoch,
                },
            };
            spec_step(RunnerState::AwaitingEvent { last_consumed_id }, Outcome::NextEvent(e))
                == Some(
                (
                    RunnerState::AwaitingStorage { event_id: id, epoch_index },
                    Ok::<Action, RunnerError>(
                        Action::GetStorageDirectory { epoch: (epoch_index + 1) as u64 },
                    ),
                ),
            )
        }),
        spec_step(
            RunnerState::AwaitingStorage { event_id: id, epoch_index },
            Outcome::Snapshot(s),
        ) == Some(
            (
                RunnerState::AwaitingEpochFinish { event_id: id, epoch_index, snapshot: s },
                Ok::<Action, RunnerError>(
                    Action::FinishEpoch { epoch_index, snapshot_path: s.path },
                ),
            ),
        ),
        spec_step(
            RunnerState::AwaitingEpochFinish { event_id: id, epoch_index, snapshot: s },
            Outcome::Done,
        ) == Some(
            (
                RunnerState::AwaitingSetLatest { event_id: id, epoch_index },
                Ok::<Action, RunnerError>(Action::SetLatestSnapshot { snapshot: s }),
            ),
        ),
{
}

/// Claim idempotency: if the log already holds a claim for the epoch, the
/// runner goes straight back to consuming — it never asks the session for
/// the claim nor the log to publish one; if the log holds none, exactly one
/// retrieval and one publication follow before consuming resumes.
pub proof fn lemma_claim_idempotency(event_id: String, epoch_index: u64, claim: EpochClaim)
    ensures
        spec_step(
            RunnerState::AwaitingClaimCheck { event_id, epoch_index },
            Outcome::ClaimWasProduced(true),
        ) == Some(
            (
                RunnerState::AwaitingEvent { last_consumed_id: event_id },
                Ok::<Action, RunnerError>(Action::ConsumeInput { last_id: event_id }),
            ),
        ),
        spec_step(
            RunnerState::AwaitingClaimCheck { event_id, epoch_index },
            Outcome::ClaimWasProduced(false),
        ) == Some(
            (
                RunnerState::AwaitingClaim { event_id, epoch_index },
                Ok::<Action, RunnerError>(Action::GetEpochClaim { epoch_index }),
            ),
        ),
        spec_step(RunnerState::AwaitingClaim { event_id, epoch_index }, Outcome::Claim(claim))
            == Some(
            (
                RunnerState::AwaitingClaimProduce { event_id, epoch_index },
                Ok::<Action, RunnerError>(Action::ProduceRollupsClaim { epoch_index, claim }),
            ),
        ),
        spec_step(RunnerState::AwaitingClaimProduce { event_id, epoch_index }, Outcome::Done)
            == Some(
            (
                RunnerState::AwaitingEvent { last_consumed_id: event_id },
                Ok::<Action, RunnerError>(Action::ConsumeInput { last_id: event_id }),
            ),
        ),
{
}

/// The state and consumed history after replaying a whole sequence of
/// outcomes from a fresh runner, feeding each to the transition relation in
/// turn. An outcome the protocol cannot produce in the state reached (one
/// of the wrong shape, or an event whose index arithmetic would leave
/// `u64`) changes nothing.
pub open spec fn replay(outcomes: Seq<Outcome>) -> (RunnerState, Seq<Event>)
    decreases outcomes.len(),
{
    if outcomes.len() == 0 {
        (RunnerState::AwaitingSnapshot, Seq::empty())
    } else {
        let (state, history) = replay(outcomes.drop_last());
        let outcome = outcomes.last();
        match spec_step(state, outcome) {
            Some((next, _)) => (next, consumed_after(history, state, outcome)),
            None => (state, history),
        }
    }
}

/// One defined transition preserves the invariant between state and
/// history.
pub proof fn lemma_step_preserves_linked(state: RunnerState, outcome: Outcome, history: Seq<Event>)
    requires
        linked(state, history),
        spec_step(state, outcome) is Some,
    ensures
        linked(spec_step(state, outcome)->Some_0.0, consumed_after(history, state, outcome)),
{
    if accepted_event(state, outcome) {
        lemma_chain_ok_push(
            history,
            outcome->NextEvent_0,
            state->AwaitingEvent_last_consumed_id@,
        );
    }
}

/// Chain contiguity over whole runs: whatever sequence of outcomes the
/// collaborators produce, the events consumed along the way form an
/// unbroken parent-linked chain.
pub proof fn lemma_replay_chain_contiguity(outcomes: Seq<Outcome>)
    ensures
        linked(replay(outcomes).0, replay(outcomes).1),
        chain_ok(replay(outcomes).1),
    decreases outcomes.len(),
{
    if outcomes.len() > 0 {
        lemma_replay_chain_contiguity(outcomes.drop_last());
        let (state, history) = replay(outcomes.drop_last());
        let outcome = outcomes.last();
        if spec_step(state, outcome) is Some {
            lemma_step_preserves_linked(state, outcome, history);
        }
    }
}

/// Recovery determinism: from a snapshot for epoch `e`, recovery asks the
/// log for the finish-epoch event that precedes resuming into `e`, starts
/// the session from the snapshot's path with `e` active, and resumes
/// consuming at the id the log returned. The transition relation is a
/// function of its arguments, so re-running recovery on the same snapshot
/// and the same log answer repeats exactly these steps.
pub proof fn lemma_recovery_determinism(s: Snapshot, event_id: String)
    ensures
        spec_step(RunnerState::AwaitingSnapshot, Outcome::Snapshot(s)) == Some(
            (
                RunnerState::AwaitingPosition { snapshot: s },
                Ok::<Action, RunnerError>(Action::FindPreviousFinishEpoch { epoch: s.epoch }),
            ),
        ),
        spec_step(RunnerState::AwaitingPosition { snapshot: s }, Outcome::EventId(event_id))
            == Some(
            (
                RunnerState::AwaitingSessionStart { last_id: event_id },
                Ok::<Action, RunnerError>(
                    Action::StartSession { snapshot_path: s.path, epoch: s.epoch },
                ),
            ),
        ),
        spec_step(RunnerState::AwaitingSessionStart { last_id: event_id }, Outcome::Done) == Some(
            (
                RunnerState::AwaitingEvent { last_consumed_id: event_id },
                Ok::<Action, RunnerError>(Action::ConsumeInput { last_id: event_id }),
            ),
        ),
{
}

} // verus!
