//! Pre-deployment activation simulation: builds the simulated call against
//! the fixed activation system contract, with the artifact injected at the
//! target address through a transient state override, and decodes the
//! versioned response.
use vstd::prelude::*;
use vstd::string::StringExecFns;

use crate::addr::{Address, zero_address_seq, ADDRESS_WIDTH};
use crate::hexenc::{hex_encode, spec_hex_encode};

verus! {

/// The fixed system-contract address that receives activation calls.
pub open spec fn activation_contract_seq() -> Seq<u8> {
    zero_address_seq().update(ADDRESS_WIDTH - 1, 0x71u8)
}

/// The 4-byte selector of the system contract's activation entry point.
pub open spec fn activation_selector() -> Seq<u8> {
    seq![0x58u8, 0xc7u8, 0x80u8, 0xc2u8]
}

/// Activation calldata per the fixed calling convention: the selector
/// followed by the target address left-padded to a 32-byte word.
pub open spec fn spec_activation_calldata(target: Seq<u8>) -> Seq<u8> {
    activation_selector() + Seq::new(12, |i: int| 0u8) + target
}

/// The fixed system-contract address that receives activation calls.
pub fn activation_contract_address() -> (r: Address)
    ensures
        r.wf(),
        r@ == activation_contract_seq(),
{
    let mut bytes: Vec<u8> = Vec::new();
    let mut i: usize = 0;
    while i < ADDRESS_WIDTH - 1
        invariant
            i <= ADDRESS_WIDTH - 1,
            bytes@.len() == i,
            forall|k: int| 0 <= k < i ==> bytes@[k] == 0u8,
        decreases ADDRESS_WIDTH - i,
    {
        bytes.push(0u8);
        i = i + 1;
    }
    bytes.push(0x71u8);
    proof {
        assert(bytes@ =~= activation_contract_seq());
    }
    Address { bytes }
}

/// Builds the activation calldata for `target`: a deterministic function of
/// the target address alone.
pub fn activation_calldata(target: &Address) -> (r: Vec<u8>)
    requires
        target.wf(),
    ensures
        r@ == spec_activation_calldata(target@),
{
    let mut data: Vec<u8> = Vec::new();
    data.push(0x58u8);
    data.push(0xc7u8);
    data.push(0x80u8);
    data.push(0xc2u8);
    let mut i: usize = 0;
    while i < 12
        invariant
            i <= 12,
            data@.len() == 4 + i,
            data@.take(4) == activation_selector(),
            forall|k: int| 4 <= k < 4 + i ==> data@[k] == 0u8,
        decreases 12 - i,
    {
        data.push(0u8);
        proof {
            assert(data@.take(4) =~= activation_selector());
        }
        i = i + 1;
    }
    let mut j: usize = 0;
    while j < ADDRESS_WIDTH
        invariant
            target.wf(),
            j <= ADDRESS_WIDTH,
            data@.len() == 16 + j,
            data@.take(4) == activation_selector(),
            forall|k: int| 4 <= k < 16 ==> data@[k] == 0u8,
            forall|k: int| 16 <= k < 16 + j ==> data@[k] == target@[k - 16],
        decreases ADDRESS_WIDTH - j,
    {
        data.push(target.bytes[j]);
        proof {
            assert(data@.take(4) =~= activation_selector());
        }
        j = j + 1;
    }
    proof {
        assert(data@ =~= spec_activation_calldata(target@));
    }
    data
}

/// One simulated, read-only call: a payload sent to the activation system
/// contract, with `override_code` injected at `override_address` for the
/// duration of this single query. It never mutates real chain state.
pub struct SimulatedCall {
    /// The call's recipient: always the activation system contract.
    pub target: Address,
    /// The activation calldata.
    pub payload: Vec<u8>,
    /// The address whose code is transiently overridden.
    pub override_address: Address,
    /// The bytes injected as code at `override_address`.
    pub override_code: Vec<u8>,
}

impl SimulatedCall {
    /// Both addresses carried by the call are well formed.
    pub open spec fn wf(&self) -> bool {
        self.target.wf() && self.override_address.wf()
    }
}

/// Builds the simulated activation call for an artifact pretended to exist
/// at `target`: calldata encodes `target`, the call goes to the activation
/// system contract, and the artifact bytes are the transient code override.
pub fn build_activation_call(target: &Address, artifact: &Vec<u8>) -> (r: SimulatedCall)
    requires
        target.wf(),
    ensures
        r.wf(),
        r.target@ == activation_contract_seq(),
        r.payload@ == spec_activation_calldata(target@),
        r.override_address@ == target@,
        r.override_code@ == artifact@,
{
    let payload = activation_calldata(target);
    let mut code: Vec<u8> = Vec::new();
    let mut i: usize = 0;
    while i < artifact.len()
        invariant
            i <= artifact@.len(),
            code@ == artifact@.take(i as int),
        decreases artifact@.len() - i,
    {
        code.push(artifact[i]);
        proof {
            assert(code@ =~= artifact@.take(i + 1));
        }
        i = i + 1;
    }
    proof {
        assert(code@ =~= artifact@);
    }
    SimulatedCall {
        target: activation_contract_address(),
        payload,
        override_address: target.duplicate(),
        override_code: code,
    }
}

/// A failed activation check.
#[derive(Debug)]
pub enum ActivationError {
    /// The network query itself failed; carries the call's recipient for
    /// context and the transport-level cause.
    NetworkFailure { target: Address, cause: String },
    /// The response was too short to carry a version tag; carries the raw
    /// response bytes.
    MalformedResponse { response: Vec<u8> },
}

impl ActivationError {
    /// A diagnostic line for the failure; the raw response is rendered in
    /// lowercase hexadecimal.
    pub fn describe(&self) -> (r: String)
        ensures
            match self {
                ActivationError::NetworkFailure { target, cause } => r@
                    == "activation check failed against system contract 0x"@ + spec_hex_encode(
                    target@,
                ) + ": "@ + cause@,
                ActivationError::MalformedResponse { response } => r@
                    == "version response too short, expected at least 2 bytes but got: 0x"@
                    + spec_hex_encode(response@),
            },
    {
        match self {
            ActivationError::NetworkFailure { target, cause } => {
                let mut s = String::from_str("activation check failed against system contract 0x");
                s.append(hex_encode(&target.bytes).as_str());
                s.append(": ");
                s.append(cause.as_str());
                s
            },
            ActivationError::MalformedResponse { response } => {
                let mut s = String::from_str(
                    "version response too short, expected at least 2 bytes but got: 0x",
                );
                s.append(hex_encode(response).as_str());
                s
            },
        }
    }
}

/// The version tag carried by a well-formed response: its trailing two bytes
/// read big-endian.
pub open spec fn spec_version_of(response: Seq<u8>) -> u16
    recommends
        response.len() >= 2,
{
    (response[response.len() - 2] * 256 + response[response.len() - 1]) as u16
}

/// The verdict a response decodes to: the version tag when the response is
/// long enough to carry one, nothing otherwise.
pub open spec fn spec_simulation_verdict(response: Seq<u8>) -> Option<u16> {
    if response.len() >= 2 {
        Some(spec_version_of(response))
    } else {
        None
    }
}

/// Decodes a simulation response: a response shorter than 2 bytes is
/// malformed; otherwise its trailing two bytes, big-endian, are the version
/// tag under which the artifact would activate.
pub fn decode_version(response: Vec<u8>) -> (r: Result<u16, ActivationError>)
    ensures
        match r {
            Ok(v) => response@.len() >= 2 && v == spec_version_of(response@),
            Err(e) => response@.len() < 2 && (e matches ActivationError::MalformedResponse {
                response: raw,
            } && raw@ == response@),
        },
{
    let n = response.len();
    if n < 2 {
        return Err(ActivationError::MalformedResponse { response });
    }
    let hi = response[n - 2];
    let lo = response[n - 1];
    Ok((hi as u16) * 256 + (lo as u16))
}

/// Interprets the outcome of running a simulated call against the network:
/// a transport failure becomes `NetworkFailure` carrying the call's
/// recipient; a response is decoded to its version tag. Holds for every
/// value the network hands back.
pub fn interpret_simulation(call: &SimulatedCall, outcome: Result<Vec<u8>, String>) -> (r: Result<
    u16,
    ActivationError,
>)
    requires
        call.wf(),
    ensures
        match outcome {
            Ok(response) => match r {
                Ok(v) => response@.len() >= 2 && v == spec_version_of(response@),
                Err(e) => response@.len() < 2 && (e matches ActivationError::MalformedResponse {
                    response: raw,
                } && raw@ == response@),
            },
            Err(cause) => (r matches Err(ActivationError::NetworkFailure {
                target,
                cause: c,
            }) && target@ == call.target@ && c == cause),
        },
{
    match outcome {
        Ok(response) => decode_version(response),
        Err(cause) => Err(
            ActivationError::NetworkFailure { target: call.target.duplicate(), cause },
        ),
    }
}

/// Law: simulation is idempotent — the verdict is a function of the response
/// bytes alone, so two runs with identical inputs against an unchanged chain
/// (hence identical responses) decode to the identical version tag.
pub proof fn lemma_simulation_idempotent(r1: Seq<u8>, r2: Seq<u8>)
    requires
        r1 == r2,
    ensures
        spec_simulation_verdict(r1) == spec_simulation_verdict(r2),
{
}

} // verus!
