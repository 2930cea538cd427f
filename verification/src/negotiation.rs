//! The negotiation sequencer: a strict five-step state machine. Each step
//! issues one fixed control request; a completed transfer moves to the next
//! stage, anything else aborts the whole bring-up at the failing stage.

use vstd::prelude::*;

use crate::request::ControlRequest;
use crate::stages::{stage_at, stage_index, stage_request, Stage, STAGE_COUNT};
use crate::transport::{is_success, TransferOutcome};

verus! {

/// Where the sequencer stands: which stage is owed next, or how it ended.
#[derive(Clone, Copy, Debug, PartialEq, Eq, Structural)]
pub enum NegotiationState {
    /// The stage at this position of the order is the next to issue.
    Pending { next: usize },
    /// All five stages completed.
    Complete,
    /// The stage at this position failed; no later stage is ever issued.
    Aborted { failed: usize },
}

/// A state the sequencer can actually reach: positions stay within the
/// five-stage order.
pub open spec fn state_valid(s: NegotiationState) -> bool {
    match s {
        NegotiationState::Pending { next } => next < STAGE_COUNT,
        NegotiationState::Complete => true,
        NegotiationState::Aborted { failed } => failed < STAGE_COUNT,
    }
}

/// The state negotiation starts from: the first stage is owed.
pub fn initial_state() -> (s: NegotiationState)
    ensures
        s == (NegotiationState::Pending { next: 0 }),
{
    NegotiationState::Pending { next: 0 }
}

/// The stage whose request the host must issue next, if any is owed.
pub fn current_stage(s: NegotiationState) -> (r: Option<Stage>)
    requires
        state_valid(s),
    ensures
        s matches NegotiationState::Pending { next } ==> (r matches Some(st)
            && stage_index(st) == next),
        !(s is Pending) ==> r is None,
{
    match s {
        NegotiationState::Pending { next } => Some(stage_at(next)),
        _ => None,
    }
}

/// Moves the sequencer by one observed outcome: a completed transfer
/// advances to the following stage (or finishes after the last), any other
/// outcome aborts at the stage that was just issued.
pub fn advance(s: NegotiationState, outcome: TransferOutcome) -> (r: NegotiationState)
    requires
        state_valid(s),
        s is Pending,
    ensures
        state_valid(r),
        s matches NegotiationState::Pending { next } ==> {
            &&& is_success(outcome) && next == STAGE_COUNT - 1 ==> r
                == NegotiationState::Complete
            &&& is_success(outcome) && next < STAGE_COUNT - 1 ==> r == (NegotiationState::Pending {
                next: (next + 1) as usize,
            })
            &&& !is_success(outcome) ==> r == (NegotiationState::Aborted { failed: next })
        },
{
    match s {
        NegotiationState::Pending { next } => match outcome {
            TransferOutcome::Completed(_) => {
                if next == STAGE_COUNT - 1 {
                    NegotiationState::Complete
                } else {
                    NegotiationState::Pending { next: next + 1 }
                }
            },
            _ => NegotiationState::Aborted { failed: next },
        },
        _ => s,
    }
}

/// How a whole negotiation run ended.
#[derive(Clone, Copy, Debug, PartialEq, Eq, Structural)]
pub enum NegotiationResult {
    /// All five stages completed.
    Complete,
    /// This stage's transfer failed; later stages were never issued.
    Aborted { stage: Stage },
}

/// Everything one negotiation run did: the requests it issued, in order of
/// issue, and how it ended.
pub struct NegotiationLog {
    pub requests: Vec<ControlRequest>,
    pub result: NegotiationResult,
}

/// The exact relation between a run's log and the outcomes the transport
/// returned: the k-th issued request is the k-th stage's fixed request; a
/// request beyond the first was issued only after every earlier stage's
/// transfer completed; the run is complete exactly when all five stages
/// completed, and otherwise aborted at the first stage whose transfer did
/// not complete.
pub open spec fn log_describes(
    requests: Seq<ControlRequest>,
    result: NegotiationResult,
    outcomes: Seq<TransferOutcome>,
) -> bool {
    &&& 1 <= requests.len() <= STAGE_COUNT
    &&& forall|i: int|
        0 <= i < requests.len() ==> #[trigger] requests[i]@ == crate::stages::stage_request_model(
            i,
        )
    &&& forall|i: int| 0 <= i < requests.len() - 1 ==> is_success(#[trigger] outcomes[i])
    &&& match result {
        NegotiationResult::Complete => requests.len() == STAGE_COUNT && is_success(
            outcomes[STAGE_COUNT - 1],
        ),
        NegotiationResult::Aborted { stage } => {
            &&& stage_index(stage) == requests.len() - 1
            &&& !is_success(outcomes[requests.len() - 1])
        },
    }
}

/// Drives a full negotiation against a transport whose outcome for each
/// issued transfer is the next entry of `outcomes`, exactly as the host
/// program would against the device. Returns the complete log of the run.
pub fn run_negotiation(outcomes: &Vec<TransferOutcome>) -> (log: NegotiationLog)
    requires
        outcomes@.len() >= STAGE_COUNT,
    ensures
        log_describes(log.requests@, log.result, outcomes@),
{
    let mut requests: Vec<ControlRequest> = Vec::new();
    let mut i: usize = 0;
    while i < STAGE_COUNT
        invariant
            i <= STAGE_COUNT,
            outcomes@.len() >= STAGE_COUNT,
            requests@.len() == i,
            forall|j: int|
                0 <= j < i ==> #[trigger] requests@[j]@ == crate::stages::stage_request_model(j),
            forall|j: int| 0 <= j < i ==> is_success(#[trigger] outcomes@[j]),
        decreases STAGE_COUNT - i,
    {
        let stage = stage_at(i);
        let req = stage_request(stage);
        requests.push(req);
        match outcomes[i] {
            TransferOutcome::Completed(_) => {
                i = i + 1;
            },
            _ => {
                return NegotiationLog { requests, result: NegotiationResult::Aborted { stage } };
            },
        }
    }
    NegotiationLog { requests, result: NegotiationResult::Complete }
}

/// Stage ordering law: however the transport answers, the k-th request a
/// run issued is exactly the k-th stage's fixed request, and a request
/// after the first was issued only after the stage before it reported a
/// successful byte count.
pub proof fn lemma_stage_ordering(
    requests: Seq<ControlRequest>,
    result: NegotiationResult,
    outcomes: Seq<TransferOutcome>,
    k: int,
)
    requires
        log_describes(requests, result, outcomes),
        0 <= k < requests.len(),
    ensures
        requests[k]@ == crate::stages::stage_request_model(k),
        k > 0 ==> is_success(outcomes[k - 1]),
{
}

/// Fatal propagation law: if the first n transfers completed and the one
/// after them did not, the run aborted at the stage in position n, and the
/// request of position n + 1 was never issued.
pub proof fn lemma_fatal_propagation(
    requests: Seq<ControlRequest>,
    result: NegotiationResult,
    outcomes: Seq<TransferOutcome>,
    n: int,
)
    requires
        log_describes(requests, result, outcomes),
        0 <= n < STAGE_COUNT,
        forall|j: int| 0 <= j < n ==> is_success(#[trigger] outcomes[j]),
        !is_success(outcomes[n]),
    ensures
        requests.len() == n + 1,
        result matches NegotiationResult::Aborted { stage } && stage_index(stage) == n,
{
    let m = requests.len() as int;
    match result {
        NegotiationResult::Complete => {
            assert(is_success(outcomes[n]));
        },
        NegotiationResult::Aborted { stage } => {
            if m - 1 < n {
                assert(is_success(outcomes[m - 1]));
            } else if m - 1 > n {
                assert(is_success(outcomes[n]));
            }
        },
    }
}

} // verus!
