//! Queueing a net-pay computation with the cluster and dispatching its
//! callback.
//!
//! Queueing does not wait for the cluster: it packages the arguments, files
//! the request, and hands back what is to be sent. The callback comes in a
//! later call from another party, if it comes at all; no funds move on
//! either.

use vstd::prelude::*;
use crate::codec::{widths_valid, Argument, EncryptedInputs};
use crate::errors::ErrorCode;
use crate::events::NetPayCalculated;
use crate::registry::{
    allocation, closing, is_live, resolution, ComputationOutcome, ComputationRequest, Registry,
    Requests,
};
use crate::state::Identity;

verus! {

/// The identifier under which the cluster files the definition of the
/// circuit called `name`.
pub uninterp spec fn definition_offset(name: Seq<char>) -> u32;

/// Calls `arcium_anchor::comp_def_offset`, which derives the identifier of a
/// computation definition from the circuit's name and from nothing else: it
/// hashes the name and reads the first four bytes of the digest as a
/// number. The contract gives that value a name and claims no more of it.
#[verifier::external_body]
fn comp_def_offset(name: &str) -> (offset: u32)
    ensures
        offset == definition_offset(name@),
{
    arcium_anchor::comp_def_offset(name)
}

/// A computation that is filed and ready to be sent to the cluster.
#[derive(Clone, Debug, PartialEq, Eq)]
pub struct QueuedComputation {
    /// The pending request as it was filed.
    pub request: ComputationRequest,
    /// Which computation definition the cluster is to run.
    pub definition_offset: u32,
    /// The arguments, in the order of the circuit's parameters.
    pub args: Vec<Argument>,
}

/// Whether queueing succeeds, or the first reason in order why not: the
/// operands are checked before the identifier.
pub open spec fn submission_decision(
    requests: Requests,
    computation_offset: u64,
    encrypted_salary: Seq<u8>,
    encrypted_tax_rate: Seq<u8>,
    encrypted_deductions: Seq<u8>,
) -> Result<(), ErrorCode> {
    if !widths_valid(encrypted_salary, encrypted_tax_rate, encrypted_deductions) {
        Err(ErrorCode::InvalidArgumentEncoding)
    } else if is_live(requests, computation_offset) {
        Err(ErrorCode::DuplicateComputationOffset)
    } else {
        Ok(())
    }
}

/// Queues a computation of the definition `definition_offset` under the
/// identifier `computation_offset`.
///
/// Fails with `InvalidArgumentEncoding` unless each encrypted scalar has
/// exactly 32 bytes, and with `DuplicateComputationOffset` if the identifier
/// denotes a request that is not closed; a failure changes nothing.
/// Otherwise a pending request that designates `callback_authority` is
/// filed, and the result holds it with the packaged arguments.
pub fn submit_computation(
    registry: &mut Registry,
    definition_offset: u32,
    computation_offset: u64,
    encrypted_salary: &[u8],
    encrypted_tax_rate: &[u8],
    encrypted_deductions: &[u8],
    pub_key: [u8; 32],
    nonce: u128,
    callback_authority: Identity,
) -> (result: Result<QueuedComputation, ErrorCode>)
    ensures
        match result {
            Ok(queued) => {
                &&& submission_decision(
                    old(registry)@,
                    computation_offset,
                    encrypted_salary@,
                    encrypted_tax_rate@,
                    encrypted_deductions@,
                ) is Ok
                &&& queued.request == ComputationRequest::pending(
                    computation_offset,
                    queued.request.inputs,
                    callback_authority,
                )
                &&& queued.request.inputs.holds(
                    pub_key,
                    nonce,
                    encrypted_salary@,
                    encrypted_tax_rate@,
                    encrypted_deductions@,
                )
                &&& allocation(old(registry)@, queued.request) == Ok::<Requests, ErrorCode>(
                    final(registry)@,
                )
                &&& queued.definition_offset == definition_offset
                &&& queued.args@ == queued.request.inputs.argument_list()
            },
            Err(error) => {
                &&& submission_decision(
                    old(registry)@,
                    computation_offset,
                    encrypted_salary@,
                    encrypted_tax_rate@,
                    encrypted_deductions@,
                ) == Err::<(), ErrorCode>(error)
                &&& final(registry)@ == old(registry)@
            },
        },
{
    let inputs = match EncryptedInputs::decode(
        pub_key,
        nonce,
        encrypted_salary,
        encrypted_tax_rate,
        encrypted_deductions,
    ) {
        Ok(inputs) => inputs,
        Err(error) => {
            return Err(error);
        },
    };
    let request = match registry.allocate(computation_offset, inputs, callback_authority) {
        Ok(request) => request,
        Err(error) => {
            return Err(error);
        },
    };
    Ok(QueuedComputation { request, definition_offset, args: inputs.arguments() })
}

/// Queues a net-pay computation under the identifier `computation_offset`.
///
/// It is `submit_computation` for the definition of the circuit
/// `calculate_net_pay`, and fails and succeeds as that does.
pub fn calculate_net_pay(
    registry: &mut Registry,
    computation_offset: u64,
    encrypted_salary: &[u8],
    encrypted_tax_rate: &[u8],
    encrypted_deductions: &[u8],
    pub_key: [u8; 32],
    nonce: u128,
    callback_authority: Identity,
) -> (result: Result<QueuedComputation, ErrorCode>)
    ensures
        match result {
            Ok(queued) => {
                &&& submission_decision(
                    old(registry)@,
                    computation_offset,
                    encrypted_salary@,
                    encrypted_tax_rate@,
                    encrypted_deductions@,
                ) is Ok
                &&& queued.request == ComputationRequest::pending(
                    computation_offset,
                    queued.request.inputs,
                    callback_authority,
                )
                &&& queued.request.inputs.holds(
                    pub_key,
                    nonce,
                    encrypted_salary@,
                    encrypted_tax_rate@,
                    encrypted_deductions@,
                )
                &&& allocation(old(registry)@, queued.request) == Ok::<Requests, ErrorCode>(
                    final(registry)@,
                )
                &&& queued.definition_offset == definition_offset("calculate_net_pay"@)
                &&& queued.args@ == queued.request.inputs.argument_list()
            },
            Err(error) => {
                &&& submission_decision(
                    old(registry)@,
                    computation_offset,
                    encrypted_salary@,
                    encrypted_tax_rate@,
                    encrypted_deductions@,
                ) == Err::<(), ErrorCode>(error)
                &&& final(registry)@ == old(registry)@
            },
        },
{
    let definition = comp_def_offset("calculate_net_pay");
    submit_computation(
        registry,
        definition,
        computation_offset,
        encrypted_salary,
        encrypted_tax_rate,
        encrypted_deductions,
        pub_key,
        nonce,
        callback_authority,
    )
}

/// Dispatching a callback: it is taken as `resolution` says, and the request
/// that it resolved is closed at once. A callback that is refused closes
/// nothing.
pub open spec fn dispatch(
    requests: Requests,
    identifier: u64,
    caller: Identity,
    outcome: ComputationOutcome,
) -> (Requests, Result<NetPayCalculated, ErrorCode>) {
    let taken = resolution(requests, identifier, caller, outcome);
    match taken.1 {
        Err(ErrorCode::UnauthorizedCallback) | Err(ErrorCode::ComputationAlreadyResolved) => taken,
        _ => (closing(taken.0, identifier).0, taken.1),
    }
}

/// Dispatches the cluster's callback for the request under
/// `computation_offset`.
///
/// Fails with `UnauthorizedCallback` unless a request under the identifier
/// designates `caller`, and with `ComputationAlreadyResolved` unless that
/// request is pending; neither changes anything. Otherwise the request is
/// resolved and closed. A successful output yields the event with the
/// ciphertext and the nonce as they came; an aborted one fails with
/// `AbortedComputation` and yields no event.
pub fn calculate_net_pay_callback(
    registry: &mut Registry,
    computation_offset: u64,
    caller: &Identity,
    output: ComputationOutcome,
) -> (result: Result<NetPayCalculated, ErrorCode>)
    ensures
        (final(registry)@, result) == dispatch(old(registry)@, computation_offset, *caller, output),
{
    let result = registry.resolve(computation_offset, caller, output);
    match result {
        Err(ErrorCode::UnauthorizedCallback) | Err(ErrorCode::ComputationAlreadyResolved) => {},
        _ => {
            registry.close(computation_offset);
        },
    }
    result
}

} // verus!
