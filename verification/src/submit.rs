//! The fee-aware transaction submission pipeline: a state machine that
//! discovers the base fee, assigns fee parameters, estimates gas, optionally
//! stops after estimation (dry run), broadcasts, and interprets the receipt.
//! Each network interaction is an action handed to the caller; the caller
//! hands the observed result back as an event.
use vstd::prelude::*;

use crate::addr::Address;

verus! {

/// A transaction to be submitted. The submitter mutates the two fee fields
/// only; everything else is immutable after construction.
pub struct TransactionRequest {
    /// The transaction's recipient.
    pub recipient: Address,
    /// The transaction's payload bytes.
    pub payload: Vec<u8>,
    /// Highest total per-unit fee the sender will pay.
    pub max_fee_per_unit: Option<u128>,
    /// Highest priority per-unit fee the sender will pay.
    pub max_priority_fee_per_unit: Option<u128>,
}

/// The sequential stages of one submission.
pub enum Stage {
    /// Fetch the latest block and read its base fee.
    DiscoverFee,
    /// Estimate gas against the (possibly fee-updated) request.
    Estimate,
    /// Sign and broadcast the transaction.
    Broadcast,
    /// Block until a receipt for the broadcast transaction is observed.
    Confirm { tx_hash: Vec<u8> },
}

/// What the caller observed from the network in answer to the last action.
pub enum SubmitEvent {
    /// The latest block was fetched; `base_fee` is its base-fee field, absent
    /// on a chain without a fee market.
    BlockFetched { base_fee: Option<u128> },
    /// The latest block could not be fetched.
    BlockUnavailable { cause: String },
    /// Gas estimation succeeded.
    GasEstimated { gas: u128 },
    /// Gas estimation failed.
    EstimationFailed { cause: String },
    /// The signed transaction was broadcast.
    Broadcasted { tx_hash: Vec<u8> },
    /// The broadcast failed.
    BroadcastFailed { cause: String },
    /// A receipt was observed. `status_present` says whether the receipt
    /// carries a success marker; a receipt without one means the transaction
    /// was included but reverted.
    ReceiptObtained { tx_hash: Vec<u8>, status_present: bool, gas_used: u128 },
    /// No receipt could be obtained.
    ReceiptUnavailable,
}

/// The network interaction the caller must perform next.
pub enum SubmitAction {
    /// Fetch the latest block.
    FetchLatestBlock,
    /// Estimate gas for the current request.
    EstimateGas,
    /// Sign the current request and broadcast it. The only action that
    /// changes real chain state.
    BroadcastSigned,
    /// Wait for a receipt of the broadcast transaction.
    AwaitReceipt,
}

/// A submission's successful terminal outcome.
pub enum Outcome {
    /// Dry run: estimation succeeded and nothing was broadcast.
    EstimatedOnly { gas_estimate: u128 },
    /// The transaction was included and succeeded.
    Confirmed { tx_hash: Vec<u8>, gas_used: u128 },
}

/// A submission's failed terminal outcome.
pub enum SubmissionError {
    /// The latest block could not be fetched.
    Transport { cause: String },
    /// The latest block carries no base fee.
    NoBaseFee,
    /// Gas estimation failed.
    EstimationFailed { cause: String },
    /// Signing or broadcasting failed.
    SendFailed { cause: String },
    /// No receipt was observed for the broadcast transaction.
    NoReceipt,
    /// A receipt was observed but carries no success marker: the transaction
    /// was included and reverted.
    Reverted { tx_hash: Vec<u8> },
}

/// One transition's result: either the submission goes on with a next stage
/// and an action to perform, or it is finished with exactly one terminal
/// outcome.
pub enum Step {
    Continue { stage: Stage, action: SubmitAction },
    Done { result: Result<Outcome, SubmissionError> },
}

/// Whether `event` is an answer to the interaction that `stage` asks for.
pub open spec fn event_fits(stage: Stage, event: SubmitEvent) -> bool {
    match stage {
        Stage::DiscoverFee => event is BlockFetched || event is BlockUnavailable,
        Stage::Estimate => event is GasEstimated || event is EstimationFailed,
        Stage::Broadcast => event is Broadcasted || event is BroadcastFailed,
        Stage::Confirm { .. } => event is ReceiptObtained || event is ReceiptUnavailable,
    }
}

/// The request as it stands after one transition: the fee fields are set to
/// the discovered base fee exactly on fee discovery for a real submission;
/// no other transition touches the request, and a dry run never does.
pub open spec fn spec_request_after(
    stage: Stage,
    event: SubmitEvent,
    estimate_only: bool,
    before: TransactionRequest,
) -> TransactionRequest {
    match (stage, event) {
        (Stage::DiscoverFee, SubmitEvent::BlockFetched { base_fee: Some(fee) }) => if estimate_only {
            before
        } else {
            TransactionRequest {
                max_fee_per_unit: Some(fee),
                max_priority_fee_per_unit: Some(fee),
                ..before
            }
        },
        _ => before,
    }
}

/// The transition taken from `stage` on `event`.
pub open spec fn spec_step(stage: Stage, event: SubmitEvent, estimate_only: bool) -> Step {
    match (stage, event) {
        (Stage::DiscoverFee, SubmitEvent::BlockUnavailable { cause }) => Step::Done {
            result: Err(SubmissionError::Transport { cause }),
        },
        (Stage::DiscoverFee, SubmitEvent::BlockFetched { base_fee: None }) => Step::Done {
            result: Err(SubmissionError::NoBaseFee),
        },
        (Stage::DiscoverFee, SubmitEvent::BlockFetched { base_fee: Some(_) }) => Step::Continue {
            stage: Stage::Estimate,
            action: SubmitAction::EstimateGas,
        },
        (Stage::Estimate, SubmitEvent::EstimationFailed { cause }) => Step::Done {
            result: Err(SubmissionError::EstimationFailed { cause }),
        },
        (Stage::Estimate, SubmitEvent::GasEstimated { gas }) => if estimate_only {
            Step::Done { result: Ok(Outcome::EstimatedOnly { gas_estimate: gas }) }
        } else {
            Step::Continue { stage: Stage::Broadcast, action: SubmitAction::BroadcastSigned }
        },
        (Stage::Broadcast, SubmitEvent::BroadcastFailed { cause }) => Step::Done {
            result: Err(SubmissionError::SendFailed { cause }),
        },
        (Stage::Broadcast, SubmitEvent::Broadcasted { tx_hash }) => Step::Continue {
            stage: Stage::Confirm { tx_hash },
            action: SubmitAction::AwaitReceipt,
        },
        (Stage::Confirm { .. }, SubmitEvent::ReceiptUnavailable) => Step::Done {
            result: Err(SubmissionError::NoReceipt),
        },
        (
            Stage::Confirm { .. },
            SubmitEvent::ReceiptObtained { tx_hash, status_present, gas_used },
        ) => if status_present {
            Step::Done { result: Ok(Outcome::Confirmed { tx_hash, gas_used }) }
        } else {
            Step::Done { result: Err(SubmissionError::Reverted { tx_hash }) }
        },
        // An event that answers no query of this stage; `event_fits` rules
        // these pairings out of every execution.
        _ => Step::Done { result: Err(SubmissionError::NoReceipt) },
    }
}

/// The stage every submission starts in, and the action it asks for.
pub fn begin_submission() -> (r: (Stage, SubmitAction))
    ensures
        r.0 is DiscoverFee,
        r.1 is FetchLatestBlock,
{
    (Stage::DiscoverFee, SubmitAction::FetchLatestBlock)
}

/// Takes one transition of the submission state machine: consumes the stage
/// and the event the caller observed, updates the request's fee fields where
/// the protocol says so, and returns either the next stage with the next
/// network action, or the submission's one terminal outcome.
pub fn submit_step(
    stage: Stage,
    event: SubmitEvent,
    estimate_only: bool,
    request: &mut TransactionRequest,
) -> (r: Step)
    requires
        event_fits(stage, event),
    ensures
        r == spec_step(stage, event, estimate_only),
        *final(request) == spec_request_after(stage, event, estimate_only, *old(request)),
{
    match (stage, event) {
        (Stage::DiscoverFee, SubmitEvent::BlockUnavailable { cause }) => Step::Done {
            result: Err(SubmissionError::Transport { cause }),
        },
        (Stage::DiscoverFee, SubmitEvent::BlockFetched { base_fee }) => {
            match base_fee {
                None => Step::Done { result: Err(SubmissionError::NoBaseFee) },
                Some(fee) => {
                    if !estimate_only {
                        request.max_fee_per_unit = Some(fee);
                        request.max_priority_fee_per_unit = Some(fee);
                    }
                    Step::Continue { stage: Stage::Estimate, action: SubmitAction::EstimateGas }
                },
            }
        },
        (Stage::Estimate, SubmitEvent::EstimationFailed { cause }) => Step::Done {
            result: Err(SubmissionError::EstimationFailed { cause }),
        },
        (Stage::Estimate, SubmitEvent::GasEstimated { gas }) => {
            if estimate_only {
                Step::Done { result: Ok(Outcome::EstimatedOnly { gas_estimate: gas }) }
            } else {
                Step::Continue { stage: Stage::Broadcast, action: SubmitAction::BroadcastSigned }
            }
        },
        (Stage::Broadcast, SubmitEvent::BroadcastFailed { cause }) => Step::Done {
            result: Err(SubmissionError::SendFailed { cause }),
        },
        (Stage::Broadcast, SubmitEvent::Broadcasted { tx_hash }) => Step::Continue {
            stage: Stage::Confirm { tx_hash },
            action: SubmitAction::AwaitReceipt,
        },
        (Stage::Confirm { .. }, SubmitEvent::ReceiptUnavailable) => Step::Done {
            result: Err(SubmissionError::NoReceipt),
        },
        (
            Stage::Confirm { .. },
            SubmitEvent::ReceiptObtained { tx_hash, status_present, gas_used },
        ) => {
            if status_present {
                Step::Done { result: Ok(Outcome::Confirmed { tx_hash, gas_used }) }
            } else {
                Step::Done { result: Err(SubmissionError::Reverted { tx_hash }) }
            }
        },
        // Unreachable: the precondition admits only fitting events.
        _ => Step::Done { result: Err(SubmissionError::NoReceipt) },
    }
}

/// The request as it stands after the machine consumes `events` in order,
/// starting from `stage`, stopping early if a transition finishes the
/// submission.
pub open spec fn spec_request_after_run(
    stage: Stage,
    events: Seq<SubmitEvent>,
    estimate_only: bool,
    before: TransactionRequest,
) -> TransactionRequest
    decreases events.len(),
{
    if events.len() == 0 {
        before
    } else {
        let after_one = spec_request_after(stage, events[0], estimate_only, before);
        match spec_step(stage, events[0], estimate_only) {
            Step::Continue { stage: next, .. } => spec_request_after_run(
                next,
                events.skip(1),
                estimate_only,
                after_one,
            ),
            Step::Done { .. } => after_one,
        }
    }
}

/// Whether the machine, consuming `events` in order from `stage`, ever asks
/// the caller to broadcast.
pub open spec fn spec_run_asks_broadcast(
    stage: Stage,
    events: Seq<SubmitEvent>,
    estimate_only: bool,
) -> bool
    decreases events.len(),
{
    if events.len() == 0 {
        false
    } else {
        match spec_step(stage, events[0], estimate_only) {
            Step::Continue { stage: next, action } => action is BroadcastSigned
                || spec_run_asks_broadcast(next, events.skip(1), estimate_only),
            Step::Done { .. } => false,
        }
    }
}

/// No transition ever leads back to fee discovery.
proof fn lemma_never_returns_to_discovery(stage: Stage, event: SubmitEvent, estimate_only: bool)
    ensures
        spec_step(stage, event, estimate_only) matches Step::Continue { stage: next, .. }
            ==> !(next is DiscoverFee),
{
}

/// Once fee discovery is behind, no later transition touches the request.
proof fn lemma_run_preserves_request(
    stage: Stage,
    events: Seq<SubmitEvent>,
    estimate_only: bool,
    before: TransactionRequest,
)
    requires
        !(stage is DiscoverFee),
    ensures
        spec_request_after_run(stage, events, estimate_only, before) == before,
    decreases events.len(),
{
    if events.len() > 0 {
        lemma_never_returns_to_discovery(stage, events[0], estimate_only);
        match spec_step(stage, events[0], estimate_only) {
            Step::Continue { stage: next, .. } => {
                lemma_run_preserves_request(next, events.skip(1), estimate_only, before);
            },
            Step::Done { .. } => {
            },
        }
    }
}

/// Law (dry run, whole run): with estimate-only set, a run over any event
/// sequence from any stage never asks for a broadcast and never mutates the
/// request.
pub proof fn lemma_dry_run_whole_run(
    stage: Stage,
    events: Seq<SubmitEvent>,
    request: TransactionRequest,
)
    ensures
        !spec_run_asks_broadcast(stage, events, true),
        spec_request_after_run(stage, events, true, request) == request,
    decreases events.len(),
{
    if events.len() > 0 {
        match spec_step(stage, events[0], true) {
            Step::Continue { stage: next, action } => {
                lemma_dry_run_whole_run(next, events.skip(1), request);
            },
            Step::Done { .. } => {
            },
        }
    }
}

/// Law (fee carriage, whole run): for a real submission whose fee discovery
/// observes base fee X, the request carries both fee fields equal to X from
/// that point on — through estimation, signing and broadcast — whatever
/// events follow; its recipient and payload are never touched at all.
pub proof fn lemma_full_run_carries_base_fee(
    base_fee: u128,
    events: Seq<SubmitEvent>,
    request: TransactionRequest,
)
    ensures
        ({
            let all = seq![SubmitEvent::BlockFetched { base_fee: Some(base_fee) }] + events;
            let after = spec_request_after_run(Stage::DiscoverFee, all, false, request);
            &&& after.max_fee_per_unit == Some(base_fee)
            &&& after.max_priority_fee_per_unit == Some(base_fee)
            &&& after.recipient == request.recipient
            &&& after.payload == request.payload
        }),
{
    let first = SubmitEvent::BlockFetched { base_fee: Some(base_fee) };
    let all = seq![first] + events;
    assert(all[0] == first);
    assert(all.skip(1) =~= events);
    let assigned = spec_request_after(Stage::DiscoverFee, first, false, request);
    lemma_run_preserves_request(Stage::Estimate, events, false, assigned);
}

/// Law (dry run): with estimate-only set, no transition from any stage on
/// any event ever asks for a broadcast, the request is never mutated, and a
/// successful estimation ends the run with the estimate itself, untouched.
pub proof fn lemma_dry_run_never_broadcasts(
    stage: Stage,
    event: SubmitEvent,
    request: TransactionRequest,
)
    ensures
        spec_step(stage, event, true) matches Step::Continue { action, .. } ==> !(action
            is BroadcastSigned),
        spec_request_after(stage, event, true, request) == request,
        forall|gas: u128|
            spec_step(Stage::Estimate, SubmitEvent::GasEstimated { gas }, true) == (Step::Done {
                result: Ok::<Outcome, SubmissionError>(Outcome::EstimatedOnly {
                    gas_estimate: gas,
                }),
            }),
{
}

/// Law (fee assignment): for a real submission, discovering a block whose
/// base fee is X sets both fee fields of the request to exactly X and
/// changes nothing else; and no transition outside fee discovery ever
/// changes the request — so the request later signed and broadcast still
/// carries both fee fields equal to X.
pub proof fn lemma_fee_assignment(base_fee: u128, request: TransactionRequest)
    ensures
        ({
            let after = spec_request_after(
                Stage::DiscoverFee,
                SubmitEvent::BlockFetched { base_fee: Some(base_fee) },
                false,
                request,
            );
            &&& after.max_fee_per_unit == Some(base_fee)
            &&& after.max_priority_fee_per_unit == Some(base_fee)
            &&& after.recipient == request.recipient
            &&& after.payload == request.payload
        }),
        forall|stage: Stage, event: SubmitEvent, eo: bool, req: TransactionRequest|
            !(stage is DiscoverFee) ==> #[trigger] spec_request_after(stage, event, eo, req)
                == req,
{
}

/// Law (receipt interpretation): a receipt whose status field is present
/// ends the run confirmed, with the receipt's hash and gas used; a receipt
/// present without a status marker ends it reverted — never silently as
/// success.
pub proof fn lemma_receipt_interpretation(
    held: Vec<u8>,
    tx_hash: Vec<u8>,
    status_present: bool,
    gas_used: u128,
)
    ensures
        status_present ==> spec_step(
            Stage::Confirm { tx_hash: held },
            SubmitEvent::ReceiptObtained { tx_hash, status_present, gas_used },
            false,
        ) == (Step::Done {
            result: Ok::<Outcome, SubmissionError>(Outcome::Confirmed { tx_hash, gas_used }),
        }),
        !status_present ==> spec_step(
            Stage::Confirm { tx_hash: held },
            SubmitEvent::ReceiptObtained { tx_hash, status_present, gas_used },
            false,
        ) == (Step::Done {
            result: Err::<Outcome, SubmissionError>(SubmissionError::Reverted { tx_hash }),
        }),
{
}

} // verus!
