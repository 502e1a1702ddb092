//! Orchestrator decisions: resolving the target address for a check, and
//! classifying artifact sizes for reporting.
use vstd::prelude::*;

use crate::addr::{derived_address, predict_address, zero_address_seq, Address};
use crate::simulate::{
    activation_calldata, activation_contract_address, activation_contract_seq,
    spec_activation_calldata,
};
use crate::submit::TransactionRequest;

verus! {

/// Resolves the address an activation check runs against: the zero-address
/// sentinel means no explicit target was supplied, so the deployment address
/// is derived from the signer and its transaction count; any other supplied
/// value is used as it stands.
pub fn resolve_target_address(supplied: &Address, signer: &Address, nonce: u64) -> (r: Address)
    requires
        supplied.wf(),
        signer.wf(),
    ensures
        r.wf(),
        supplied@ == zero_address_seq() ==> r@ == derived_address(signer@, nonce),
        supplied@ != zero_address_seq() ==> r@ == supplied@,
{
    if supplied.is_zero() {
        predict_address(signer, nonce)
    } else {
        supplied.duplicate()
    }
}

/// True exactly when the supplied target is the zero-address sentinel, so
/// that the signer's transaction count must be fetched before the
/// deployment address can be derived.
pub fn needs_address_prediction(supplied: &Address) -> (r: bool)
    requires
        supplied.wf(),
    ensures
        r == (supplied@ == zero_address_seq()),
{
    supplied.is_zero()
}

/// Builds the real activation transaction for a validated artifact — the
/// hand-off from validation to execution: sent to the activation system
/// contract, carrying the activation calldata for `target`, with both fee
/// fields left unset for the submitter to assign.
pub fn build_activation_request(target: &Address) -> (r: TransactionRequest)
    requires
        target.wf(),
    ensures
        r.recipient@ == activation_contract_seq(),
        r.recipient.wf(),
        r.payload@ == spec_activation_calldata(target@),
        r.max_fee_per_unit is None,
        r.max_priority_fee_per_unit is None,
{
    TransactionRequest {
        recipient: activation_contract_address(),
        payload: activation_calldata(target),
        max_fee_per_unit: None,
        max_priority_fee_per_unit: None,
    }
}

/// Artifact byte counts at or under this are small.
pub const SMALL_SIZE_LIMIT: u64 = 8000;

/// Artifact byte counts over the small limit but at or under this are
/// moderate; anything larger is large.
pub const MODERATE_SIZE_LIMIT: u64 = 24000;

/// The reporting tier of an artifact's byte count.
#[derive(PartialEq, Eq, Structural, Clone, Copy, Debug)]
pub enum SizeTier {
    Small,
    Moderate,
    Large,
}

/// The tier a byte count falls in.
pub open spec fn spec_size_tier(len: u64) -> SizeTier {
    if len <= SMALL_SIZE_LIMIT {
        SizeTier::Small
    } else if len <= MODERATE_SIZE_LIMIT {
        SizeTier::Moderate
    } else {
        SizeTier::Large
    }
}

/// Classifies a byte count for reporting: small at or under the small
/// limit, moderate at or under the moderate limit, large beyond.
pub fn size_tier(len: u64) -> (r: SizeTier)
    ensures
        r == spec_size_tier(len),
{
    if len <= SMALL_SIZE_LIMIT {
        SizeTier::Small
    } else if len <= MODERATE_SIZE_LIMIT {
        SizeTier::Moderate
    } else {
        SizeTier::Large
    }
}

} // verus!
