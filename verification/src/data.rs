use vstd::prelude::*;

verus! {

/// Metadata accompanying one advance-state input (sender, block info,
/// timestamps). The runner never inspects it: it is passed through
/// verbatim to the compute session.
#[derive(Clone, PartialEq, Eq, Debug)]
pub struct InputMetadata {
    pub msg_sender: Vec<u8>,
    pub block_number: u64,
    pub timestamp: u64,
}

/// The two kinds of event the log delivers: one user input to feed into
/// the current epoch, or the marker that closes the current epoch.
#[derive(Clone, PartialEq, Eq, Debug)]
pub enum RollupsData {
    AdvanceStateInput { metadata: InputMetadata, payload: Vec<u8> },
    FinishEpoch,
}

/// The payload of one event. `parent_id` must equal the id of the event
/// consumed immediately before it, forming a singly-linked causal chain.
#[derive(Clone, PartialEq, Eq, Debug)]
pub struct RollupsInput {
    pub parent_id: String,
    pub epoch_index: u64,
    pub inputs_sent_count: u64,
    pub data: RollupsData,
}

/// One event of the input stream. Identity is the `id`, an opaque stream
/// offset assigned by the log; events are immutable once produced.
#[derive(Clone, PartialEq, Eq, Debug)]
pub struct Event {
    pub id: String,
    pub payload: RollupsInput,
}

/// A durable checkpoint of compute-session state. `epoch` is the epoch the
/// session resumes *into* when started from this snapshot, not the epoch
/// whose closing produced it.
#[derive(Clone, PartialEq, Eq, Debug)]
pub struct Snapshot {
    pub path: String,
    pub epoch: u64,
}

/// The artifact summarizing a finished epoch's outcome. The runner never
/// inspects it: it is transported from the compute session to the log as is.
#[derive(Clone, PartialEq, Eq, Debug)]
pub struct EpochClaim {
    pub hash: Vec<u8>,
}

} // verus!
