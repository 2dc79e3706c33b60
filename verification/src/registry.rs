//! The registry of computation requests.
//!
//! A request is filed under an identifier that its caller picks. It is
//! `Pending` until the cluster's callback resolves it, `Resolved` once the
//! callback has been taken, and `Closed` after that. An identifier is free
//! again only when its request is closed. The callback arrives at an
//! unknown later time, or never; it is matched with its request by the
//! identifier and accepted only from the party that the request designates.

use std::collections::HashMap;
use vstd::prelude::*;
use crate::codec::EncryptedInputs;
use crate::errors::ErrorCode;
use crate::events::NetPayCalculated;
use crate::state::Identity;

verus! {

broadcast use vstd::std_specs::hash::group_hash_axioms;

/// How a computation ended.
#[derive(Clone, Copy, Debug, PartialEq, Eq, Structural)]
pub enum Resolution {
    /// The cluster returned a result.
    Success,
    /// The cluster did not complete the computation.
    Aborted,
}

/// Where a request stands.
#[derive(Clone, Copy, Debug, PartialEq, Eq, Structural)]
pub enum RequestStatus {
    /// Queued; no callback has been accepted.
    Pending,
    /// The callback has been accepted.
    Resolved(Resolution),
    /// Done with; the identifier is free.
    Closed,
}

/// What the cluster reports in its callback.
#[derive(Clone, Copy, Debug, PartialEq, Eq)]
pub enum ComputationOutcome {
    /// The encrypted net pay and the nonce under which it was encrypted.
    Success { ciphertext: [u8; 32], nonce: [u8; 16] },
    /// A party of the cluster did not complete its share.
    Aborted,
}

/// One computation request.
#[derive(Clone, Copy, Debug, PartialEq, Eq)]
pub struct ComputationRequest {
    /// The identifier under which the request is filed.
    pub identifier: u64,
    /// The operands that were queued.
    pub inputs: EncryptedInputs,
    /// The only party whose callback resolves the request.
    pub callback_authority: Identity,
    /// Where the request stands.
    pub status: RequestStatus,
}

impl ComputationRequest {
    /// The request as it is filed: pending.
    pub open spec fn pending(
        identifier: u64,
        inputs: EncryptedInputs,
        callback_authority: Identity,
    ) -> ComputationRequest {
        ComputationRequest { identifier, inputs, callback_authority, status: RequestStatus::Pending }
    }

    /// The request with another status.
    pub open spec fn with_status(self, status: RequestStatus) -> ComputationRequest {
        ComputationRequest { status, ..self }
    }
}

/// Whether a request passes from `before` to `after` in at most one step of
/// its life: from pending to resolved, or from resolved to closed.
pub open spec fn advances(before: RequestStatus, after: RequestStatus) -> bool {
    ||| after == before
    ||| before == RequestStatus::Pending && after is Resolved
    ||| before is Resolved && after == RequestStatus::Closed
}

/// The requests by identifier.
pub type Requests = Map<u64, ComputationRequest>;

/// Whether `identifier` denotes a request that is not closed.
pub open spec fn is_live(requests: Requests, identifier: u64) -> bool {
    requests.contains_key(identifier) && requests[identifier].status != RequestStatus::Closed
}

/// Filing `request`: the requests afterwards, or `DuplicateComputationOffset`
/// if its identifier denotes a request that is not closed.
pub open spec fn allocation(requests: Requests, request: ComputationRequest) -> Result<
    Requests,
    ErrorCode,
> {
    if is_live(requests, request.identifier) {
        Err(ErrorCode::DuplicateComputationOffset)
    } else {
        Ok(requests.insert(request.identifier, request))
    }
}

/// Whether a callback from `caller` for `identifier` is authentic: a request
/// is filed under the identifier and designates the caller.
pub open spec fn is_authentic(requests: Requests, identifier: u64, caller: Identity) -> bool {
    requests.contains_key(identifier) && requests[identifier].callback_authority == caller
}

/// The event that a successful outcome is turned into: ciphertext and nonce
/// as they came.
pub open spec fn result_event(outcome: ComputationOutcome) -> NetPayCalculated
    recommends
        outcome is Success,
{
    NetPayCalculated { net_pay: outcome->ciphertext, nonce: outcome->nonce }
}

/// How an outcome is recorded.
pub open spec fn recorded(outcome: ComputationOutcome) -> Resolution {
    match outcome {
        ComputationOutcome::Success { .. } => Resolution::Success,
        ComputationOutcome::Aborted => Resolution::Aborted,
    }
}

/// Taking a callback: the requests afterwards and what the caller gets.
///
/// A callback that is not authentic fails with `UnauthorizedCallback`, one
/// for a request that is not pending with `ComputationAlreadyResolved`;
/// neither changes a request. Otherwise the request becomes resolved, and
/// the caller gets the result event, or `AbortedComputation` if the
/// computation was aborted.
pub open spec fn resolution(
    requests: Requests,
    identifier: u64,
    caller: Identity,
    outcome: ComputationOutcome,
) -> (Requests, Result<NetPayCalculated, ErrorCode>) {
    if !is_authentic(requests, identifier, caller) {
        (requests, Err(ErrorCode::UnauthorizedCallback))
    } else if requests[identifier].status != RequestStatus::Pending {
        (requests, Err(ErrorCode::ComputationAlreadyResolved))
    } else {
        (
            requests.insert(
                identifier,
                requests[identifier].with_status(RequestStatus::Resolved(recorded(outcome))),
            ),
            match outcome {
                ComputationOutcome::Success { .. } => Ok(result_event(outcome)),
                ComputationOutcome::Aborted => Err(ErrorCode::AbortedComputation),
            },
        )
    }
}

/// Closing the request under `identifier`: the requests afterwards, and
/// whether a request was closed. Only a resolved request can be closed.
pub open spec fn closing(requests: Requests, identifier: u64) -> (Requests, bool) {
    if requests.contains_key(identifier) && requests[identifier].status is Resolved {
        (
            requests.insert(identifier, requests[identifier].with_status(RequestStatus::Closed)),
            true,
        )
    } else {
        (requests, false)
    }
}

/// Dispatching a callback: it is taken, and the request that it resolved is
/// closed at once.
pub open spec fn dispatch(
    requests: Requests,
    identifier: u64,
    caller: Identity,
    outcome: ComputationOutcome,
) -> (Requests, Result<NetPayCalculated, ErrorCode>) {
    let taken = resolution(requests, identifier, caller, outcome);
    if taken.0 == requests {
        taken
    } else {
        (closing(taken.0, identifier).0, taken.1)
    }
}

/// Tells whether two identities are the same.
pub fn same_identity(left: &Identity, right: &Identity) -> (same: bool)
    ensures
        same == (*left == *right),
{
    let mut i: usize = 0;
    while i < 32
        invariant
            i <= 32,
            forall|j: int| 0 <= j < i ==> left@[j] == right@[j],
        decreases 32 - i,
    {
        if left[i] != right[i] {
            return false;
        }
        i = i + 1;
    }
    assert(*left =~= *right);
    true
}

/// What the registry keeps of a request; the identifier is the key.
#[derive(Clone, Copy)]
struct Entry {
    inputs: EncryptedInputs,
    callback_authority: Identity,
    status: RequestStatus,
}

impl Entry {
    /// The request that an entry under `identifier` stands for.
    closed spec fn request(self, identifier: u64) -> ComputationRequest {
        ComputationRequest {
            identifier,
            inputs: self.inputs,
            callback_authority: self.callback_authority,
            status: self.status,
        }
    }
}

/// The computation requests of one ledger program, by identifier.
pub struct Registry {
    entries: HashMap<u64, Entry>,
}

impl View for Registry {
    type V = Requests;

    closed spec fn view(&self) -> Requests {
        Map::new(
            |identifier: u64| self.entries@.contains_key(identifier),
            |identifier: u64| self.entries@[identifier].request(identifier),
        )
    }
}

impl Registry {
    /// A registry without requests.
    pub fn new() -> (registry: Registry)
        ensures
            registry@ == Map::<u64, ComputationRequest>::empty(),
    {
        let registry = Registry { entries: HashMap::new() };
        assert(registry@ =~= Map::<u64, ComputationRequest>::empty());
        registry
    }

    /// Every request is filed under its own identifier.
    pub proof fn lemma_filed_by_identifier(&self)
        ensures
            forall|identifier: u64| #[trigger]
                self@.contains_key(identifier) ==> self@[identifier].identifier == identifier,
    {
    }

    /// Looks up the request filed under `identifier`.
    pub fn get(&self, identifier: u64) -> (found: Option<ComputationRequest>)
        ensures
            found is Some <==> self@.contains_key(identifier),
            found matches Some(request) ==> request == self@[identifier] && request.identifier
                == identifier,
    {
        match self.entries.get(&identifier) {
            Some(entry) => Some(
                ComputationRequest {
                    identifier,
                    inputs: entry.inputs,
                    callback_authority: entry.callback_authority,
                    status: entry.status,
                },
            ),
            None => None,
        }
    }

    /// Puts back a request that this registry filed before and that was kept
    /// elsewhere since: it stands under its identifier, as it is, in place
    /// of whatever stood there. This is for rebuilding a registry from its
    /// kept requests; the request is taken on trust.
    pub fn restore(&mut self, request: ComputationRequest)
        ensures
            final(self)@ == old(self)@.insert(request.identifier, request),
    {
        self.entries.insert(
            request.identifier,
            Entry {
                inputs: request.inputs,
                callback_authority: request.callback_authority,
                status: request.status,
            },
        );
        assert(self@ =~= old(self)@.insert(request.identifier, request));
    }

    /// Files a pending request under `identifier`, together with the party
    /// that alone may resolve it, and returns the request.
    ///
    /// Fails with `DuplicateComputationOffset`, changing nothing, if the
    /// identifier denotes a request that is not closed.
    pub fn allocate(
        &mut self,
        identifier: u64,
        inputs: EncryptedInputs,
        callback_authority: Identity,
    ) -> (result: Result<ComputationRequest, ErrorCode>)
        ensures
            match result {
                Ok(request) => {
                    &&& request == ComputationRequest::pending(
                        identifier,
                        inputs,
                        callback_authority,
                    )
                    &&& allocation(old(self)@, request) == Ok::<Requests, ErrorCode>(final(self)@)
                },
                Err(error) => {
                    &&& allocation(
                        old(self)@,
                        ComputationRequest::pending(identifier, inputs, callback_authority),
                    ) == Err::<Requests, ErrorCode>(error)
                    &&& final(self)@ == old(self)@
                },
            },
    {
        let live = match self.entries.get(&identifier) {
            Some(entry) => match entry.status {
                RequestStatus::Closed => false,
                _ => true,
            },
            None => false,
        };
        if live {
            return Err(ErrorCode::DuplicateComputationOffset);
        }
        let request = ComputationRequest {
            identifier,
            inputs,
            callback_authority,
            status: RequestStatus::Pending,
        };
        self.entries.insert(
            identifier,
            Entry { inputs, callback_authority, status: RequestStatus::Pending },
        );
        assert(self@ =~= old(self)@.insert(identifier, request));
        Ok(request)
    }

    /// Takes the callback of `caller` for the request under `identifier`.
    ///
    /// Fails with `UnauthorizedCallback` unless a request is filed under the
    /// identifier and designates `caller`, and with
    /// `ComputationAlreadyResolved` unless that request is pending; neither
    /// changes anything. Otherwise the request is resolved: a successful
    /// outcome yields the result event with ciphertext and nonce as they
    /// came, an aborted one fails with `AbortedComputation`.
    pub fn resolve(&mut self, identifier: u64, caller: &Identity, outcome: ComputationOutcome) -> (result:
        Result<NetPayCalculated, ErrorCode>)
        ensures
            (final(self)@, result) == resolution(old(self)@, identifier, *caller, outcome),
    {
        let entry = match self.entries.get(&identifier) {
            Some(entry) => *entry,
            None => {
                return Err(ErrorCode::UnauthorizedCallback);
            },
        };
        if !same_identity(&entry.callback_authority, caller) {
            return Err(ErrorCode::UnauthorizedCallback);
        }
        match entry.status {
            RequestStatus::Pending => {},
            _ => {
                return Err(ErrorCode::ComputationAlreadyResolved);
            },
        }
        match outcome {
            ComputationOutcome::Success { ciphertext, nonce } => {
                self.entries.insert(
                    identifier,
                    Entry { status: RequestStatus::Resolved(Resolution::Success), ..entry },
                );
                assert(self@ =~= resolution(old(self)@, identifier, *caller, outcome).0);
                Ok(NetPayCalculated { net_pay: ciphertext, nonce })
            },
            ComputationOutcome::Aborted => {
                self.entries.insert(
                    identifier,
                    Entry { status: RequestStatus::Resolved(Resolution::Aborted), ..entry },
                );
                assert(self@ =~= resolution(old(self)@, identifier, *caller, outcome).0);
                Err(ErrorCode::AbortedComputation)
            },
        }
    }

    /// Closes the resolved request under `identifier` and tells whether it
    /// did. Nothing changes unless such a request is there.
    pub fn close(&mut self, identifier: u64) -> (closed: bool)
        ensures
            (final(self)@, closed) == closing(old(self)@, identifier),
    {
        let entry = match self.entries.get(&identifier) {
            Some(entry) => *entry,
            None => {
                return false;
            },
        };
        match entry.status {
            RequestStatus::Resolved(_) => {
                self.entries.insert(identifier, Entry { status: RequestStatus::Closed, ..entry });
                assert(self@ =~= closing(old(self)@, identifier).0);
                true
            },
            _ => false,
        }
    }
}

} // verus!
