//! What holds of the operations taken together.
//!
//! Each statement is over the same functions in which the contracts of the
//! operations are written, so it holds of every run of the operations
//! themselves.

use vstd::prelude::*;
use crate::codec::EncryptedInputs;
use crate::computation::dispatch;
use crate::errors::ErrorCode;
use crate::events::NetPayCalculated;
use crate::registry::{
    advances, allocation, closing, is_authentic, is_live, resolution, ComputationOutcome,
    ComputationRequest, RequestStatus, Requests,
};
use crate::bookkeeping::{after_pause, after_resume};
use crate::settlement::{
    after_deposit, after_payment, deposit_decision, deposit_fits, net_pay_of, payment_computable,
    payment_decision,
};
use crate::state::{Employee, Identity, Payroll};

verus! {

/// A payroll with the employees paid from it.
pub struct Ledger {
    pub payroll: Payroll,
    pub employees: Seq<Employee>,
}

/// One operation on a ledger.
pub enum LedgerOperation {
    /// A deposit of `amount`.
    Deposit { amount: u64 },
    /// A payment, at time `now`, of the employee at position `employee`.
    Disburse { employee: int, now: i64 },
    /// Pausing the payroll.
    Pause,
    /// Resuming the payroll.
    Resume,
}

/// Whether `operation` can be carried out on `ledger`: a deposit whose
/// balance stays within the range of the vault, a payment of an employee of
/// the ledger whose amount can be computed, and any pausing or resuming.
pub open spec fn applies(ledger: Ledger, operation: LedgerOperation) -> bool {
    match operation {
        LedgerOperation::Deposit { amount } => deposit_fits(ledger.payroll, amount),
        LedgerOperation::Disburse { employee, now } => 0 <= employee < ledger.employees.len()
            && payment_computable(ledger.payroll, ledger.employees[employee], now as int),
        LedgerOperation::Pause => true,
        LedgerOperation::Resume => true,
    }
}

/// The ledger after `operation`: what `deposit_funds`, `process_payment`,
/// `pause_payroll` or `resume_payroll` leaves of the records. An operation
/// that cannot be carried out leaves the ledger as it is.
pub open spec fn step(ledger: Ledger, operation: LedgerOperation) -> Ledger {
    if !applies(ledger, operation) {
        ledger
    } else {
        match operation {
            LedgerOperation::Deposit { amount } => Ledger {
                payroll: after_deposit(ledger.payroll, amount),
                ..ledger
            },
            LedgerOperation::Disburse { employee, now } => {
                let after = after_payment(ledger.payroll, ledger.employees[employee], now);
                Ledger { payroll: after.0, employees: ledger.employees.update(employee, after.1) }
            },
            LedgerOperation::Pause => Ledger { payroll: after_pause(ledger.payroll), ..ledger },
            LedgerOperation::Resume => Ledger { payroll: after_resume(ledger.payroll), ..ledger },
        }
    }
}

/// What `operation` adds to the vault of `ledger`: the amount of a deposit
/// that is carried out and allowed, and nothing otherwise.
pub open spec fn deposited_by(ledger: Ledger, operation: LedgerOperation) -> int {
    match operation {
        LedgerOperation::Deposit { amount } => if applies(ledger, operation) && deposit_decision(
            ledger.payroll,
            amount,
        ) is Ok {
            amount as int
        } else {
            0
        },
        _ => 0,
    }
}

/// What `operation` takes from the vault of `ledger`: the net pay of a
/// payment that is carried out and allowed, and nothing otherwise.
pub open spec fn disbursed_by(ledger: Ledger, operation: LedgerOperation) -> int {
    match operation {
        LedgerOperation::Disburse { employee, now } => if applies(ledger, operation)
            && payment_decision(ledger.payroll, ledger.employees[employee], now as int) is Ok {
            net_pay_of(ledger.payroll, ledger.employees[employee])
        } else {
            0
        },
        _ => 0,
    }
}

/// The ledger after the operations of `operations`, in order.
pub open spec fn run(ledger: Ledger, operations: Seq<LedgerOperation>) -> Ledger
    decreases operations.len(),
{
    if operations.len() == 0 {
        ledger
    } else {
        run(step(ledger, operations.first()), operations.drop_first())
    }
}

/// The sum of what the operations add to the vault.
pub open spec fn total_deposited(ledger: Ledger, operations: Seq<LedgerOperation>) -> int
    decreases operations.len(),
{
    if operations.len() == 0 {
        0
    } else {
        deposited_by(ledger, operations.first()) + total_deposited(
            step(ledger, operations.first()),
            operations.drop_first(),
        )
    }
}

/// The sum of what the operations take from the vault.
pub open spec fn total_disbursed(ledger: Ledger, operations: Seq<LedgerOperation>) -> int
    decreases operations.len(),
{
    if operations.len() == 0 {
        0
    } else {
        disbursed_by(ledger, operations.first()) + total_disbursed(
            step(ledger, operations.first()),
            operations.drop_first(),
        )
    }
}

/// One operation changes the vault balance by what it adds less what it
/// takes. It keeps every employee in place and changes nothing of an
/// employee but the time of the last payment, which it never moves back.
pub proof fn lemma_step_accounts(ledger: Ledger, operation: LedgerOperation)
    ensures
        step(ledger, operation).payroll.total_funds == ledger.payroll.total_funds + deposited_by(
            ledger,
            operation,
        ) - disbursed_by(ledger, operation),
        deposited_by(ledger, operation) >= 0,
        disbursed_by(ledger, operation) >= 0,
        step(ledger, operation).employees.len() == ledger.employees.len(),
        forall|i: int|
            0 <= i < ledger.employees.len() ==> {
                let after = #[trigger] step(ledger, operation).employees[i];
                &&& after == ledger.employees[i].paid_at(after.last_payment)
                &&& after.last_payment >= ledger.employees[i].last_payment
            },
{
}

/// Conservation of funds: after any sequence of deposits and payments,
/// with the payroll paused and resumed in between at will, the vault
/// balance is the balance at the start, plus all that was deposited, less
/// all that was disbursed; and it is never negative.
pub proof fn lemma_funds_conserved(ledger: Ledger, operations: Seq<LedgerOperation>)
    ensures
        run(ledger, operations).payroll.total_funds == ledger.payroll.total_funds
            + total_deposited(ledger, operations) - total_disbursed(ledger, operations),
        run(ledger, operations).payroll.total_funds >= 0,
        total_deposited(ledger, operations) >= 0,
        total_disbursed(ledger, operations) >= 0,
    decreases operations.len(),
{
    if operations.len() > 0 {
        lemma_step_accounts(ledger, operations.first());
        lemma_funds_conserved(step(ledger, operations.first()), operations.drop_first());
    }
}

/// For a payroll that starts with an empty vault, the balance is all that
/// was deposited less all that was disbursed.
pub proof fn lemma_balance_is_deposits_less_payments(
    ledger: Ledger,
    operations: Seq<LedgerOperation>,
)
    requires
        ledger.payroll.total_funds == 0,
    ensures
        run(ledger, operations).payroll.total_funds == total_deposited(ledger, operations)
            - total_disbursed(ledger, operations),
        total_disbursed(ledger, operations) <= total_deposited(ledger, operations),
{
    lemma_funds_conserved(ledger, operations);
}

/// Whatever the operations, every employee stays in place and with the
/// same payroll, and nothing of an employee changes but the time of the
/// last payment, which never moves back.
pub proof fn lemma_employees_change_by_payment_alone(
    ledger: Ledger,
    operations: Seq<LedgerOperation>,
)
    ensures
        run(ledger, operations).employees.len() == ledger.employees.len(),
        forall|i: int|
            0 <= i < ledger.employees.len() ==> {
                let after = #[trigger] run(ledger, operations).employees[i];
                &&& after == ledger.employees[i].paid_at(after.last_payment)
                &&& after.payroll == ledger.employees[i].payroll
                &&& after.last_payment >= ledger.employees[i].last_payment
            },
    decreases operations.len(),
{
    if operations.len() > 0 {
        let next = step(ledger, operations.first());
        lemma_step_accounts(ledger, operations.first());
        lemma_employees_change_by_payment_alone(next, operations.drop_first());
        assert forall|i: int| 0 <= i < ledger.employees.len() implies ({
            let after = #[trigger] run(ledger, operations).employees[i];
            &&& after == ledger.employees[i].paid_at(after.last_payment)
            &&& after.payroll == ledger.employees[i].payroll
            &&& after.last_payment >= ledger.employees[i].last_payment
        }) by {
            let between = next.employees[i];
            assert(between == ledger.employees[i].paid_at(between.last_payment));
        }
    }
}

/// Records that are well formed stay so, whatever the operations.
pub proof fn lemma_records_stay_well_formed(ledger: Ledger, operations: Seq<LedgerOperation>)
    requires
        ledger.payroll.well_formed(),
        forall|i: int| 0 <= i < ledger.employees.len() ==> ledger.employees[i].well_formed(),
    ensures
        run(ledger, operations).payroll.well_formed(),
        run(ledger, operations).employees.len() == ledger.employees.len(),
        forall|i: int|
            0 <= i < ledger.employees.len() ==> #[trigger] run(
                ledger,
                operations,
            ).employees[i].well_formed(),
    decreases operations.len(),
{
    if operations.len() > 0 {
        let next = step(ledger, operations.first());
        lemma_step_accounts(ledger, operations.first());
        assert forall|i: int| 0 <= i < next.employees.len() implies next.employees[i].well_formed() by {
            assert(next.employees[i] == ledger.employees[i].paid_at(
                next.employees[i].last_payment,
            ));
        }
        lemma_records_stay_well_formed(next, operations.drop_first());
    }
}

/// No second payment within one interval: if a payment is allowed at
/// `first`, then at any later time `second` before `first` plus the interval
/// a payment of the same employee fails with `PaymentTooSoon` and changes
/// nothing. So it does from the payroll as the first payment left it and
/// from any active payroll; from no payroll at all does it succeed.
pub proof fn lemma_no_second_payment_within_interval(
    payroll: Payroll,
    employee: Employee,
    first: i64,
    second: i64,
)
    requires
        payment_decision(payroll, employee, first as int) is Ok,
        first < second < first + employee.payment_frequency.interval_seconds(),
    ensures
        payment_decision(
            after_payment(payroll, employee, first).0,
            after_payment(payroll, employee, first).1,
            second as int,
        ) == Err::<int, ErrorCode>(ErrorCode::PaymentTooSoon),
        after_payment(
            after_payment(payroll, employee, first).0,
            after_payment(payroll, employee, first).1,
            second,
        ) == after_payment(payroll, employee, first),
        forall|later: Payroll|
            later.is_active ==> #[trigger] payment_decision(
                later,
                after_payment(payroll, employee, first).1,
                second as int,
            ) == Err::<int, ErrorCode>(ErrorCode::PaymentTooSoon),
        forall|later: Payroll| #[trigger]
            payment_decision(later, after_payment(payroll, employee, first).1, second as int)
                is Err,
{
}

/// The life of a request: a callback or a closing removes no request,
/// changes nothing of a request but its status, and moves a status by at
/// most one step, from pending to resolved or from resolved to closed.
/// Nothing leaves the closed state, and nothing is closed that was not
/// resolved.
pub proof fn lemma_requests_only_advance(
    requests: Requests,
    identifier: u64,
    caller: Identity,
    outcome: ComputationOutcome,
)
    ensures
        ({
            let taken = resolution(requests, identifier, caller, outcome).0;
            &&& taken.dom() == requests.dom()
            &&& forall|other: u64| #[trigger]
                requests.contains_key(other) ==> taken[other] == requests[other].with_status(
                    taken[other].status,
                ) && advances(requests[other].status, taken[other].status)
        }),
        ({
            let closed = closing(requests, identifier).0;
            &&& closed.dom() == requests.dom()
            &&& forall|other: u64| #[trigger]
                requests.contains_key(other) ==> closed[other] == requests[other].with_status(
                    closed[other].status,
                ) && advances(requests[other].status, closed[other].status)
        }),
        ({
            let done = dispatch(requests, identifier, caller, outcome).0;
            &&& done.dom() == requests.dom()
            &&& forall|other: u64| #[trigger]
                requests.contains_key(other) ==> done[other] == requests[other].with_status(
                    done[other].status,
                ) && (done[other].status == requests[other].status || (requests[other].status
                    == RequestStatus::Pending && done[other].status == RequestStatus::Closed))
        }),
{
    let taken = resolution(requests, identifier, caller, outcome).0;
    assert(taken.dom() =~= requests.dom());
    let closed = closing(requests, identifier).0;
    assert(closed.dom() =~= requests.dom());
    let done = dispatch(requests, identifier, caller, outcome).0;
    assert(closing(taken, identifier).0.dom() =~= taken.dom());
    assert(done.dom() =~= requests.dom());
}

/// Every request starts pending: an allocation that succeeds changes the
/// requests under the new identifier alone, files a pending request there,
/// and replaces at most a closed one.
pub proof fn lemma_allocation_files_pending(
    requests: Requests,
    identifier: u64,
    inputs: EncryptedInputs,
    callback_authority: Identity,
)
    requires
        allocation(
            requests,
            ComputationRequest::pending(identifier, inputs, callback_authority),
        ) is Ok,
    ensures
        ({
            let filed = allocation(
                requests,
                ComputationRequest::pending(identifier, inputs, callback_authority),
            )->Ok_0;
            &&& filed.dom() == requests.dom().insert(identifier)
            &&& filed[identifier].status == RequestStatus::Pending
            &&& requests.contains_key(identifier) ==> requests[identifier].status
                == RequestStatus::Closed
            &&& forall|other: u64|
                other != identifier && requests.contains_key(other) ==> #[trigger] filed[other]
                    == requests[other]
        }),
{
    let filed = allocation(
        requests,
        ComputationRequest::pending(identifier, inputs, callback_authority),
    )->Ok_0;
    assert(filed.dom() =~= requests.dom().insert(identifier));
}

/// An identifier that was allocated cannot be allocated again: the second
/// request under it fails with `DuplicateComputationOffset`.
pub proof fn lemma_allocated_identifier_is_taken(
    requests: Requests,
    first: ComputationRequest,
    second: ComputationRequest,
)
    requires
        first.status == RequestStatus::Pending,
        allocation(requests, first) is Ok,
        second.identifier == first.identifier,
    ensures
        allocation(allocation(requests, first)->Ok_0, second) == Err::<Requests, ErrorCode>(
            ErrorCode::DuplicateComputationOffset,
        ),
{
}

/// An identifier stays taken until its request is resolved and closed: no
/// callback frees it, whatever its identifier, caller and outcome, and
/// closing frees it only if it is this request that is closed.
pub proof fn lemma_identifier_taken_until_closed(
    requests: Requests,
    identifier: u64,
    request: ComputationRequest,
    other: u64,
    caller: Identity,
    outcome: ComputationOutcome,
)
    requires
        is_live(requests, identifier),
        request.identifier == identifier,
    ensures
        allocation(requests, request) == Err::<Requests, ErrorCode>(
            ErrorCode::DuplicateComputationOffset,
        ),
        is_live(resolution(requests, other, caller, outcome).0, identifier),
        !is_live(closing(requests, other).0, identifier) <==> other == identifier
            && requests[identifier].status is Resolved,
        !is_live(dispatch(requests, other, caller, outcome).0, identifier) <==> other
            == identifier && is_authentic(requests, identifier, caller)
            && requests[identifier].status == RequestStatus::Pending,
{
}

/// Once its request is closed, an identifier can be allocated again.
pub proof fn lemma_closed_identifier_is_free(requests: Requests, request: ComputationRequest)
    requires
        requests.contains_key(request.identifier),
        requests[request.identifier].status == RequestStatus::Closed,
    ensures
        allocation(requests, request) == Ok::<Requests, ErrorCode>(
            requests.insert(request.identifier, request),
        ),
{
}

/// A request is resolved once: after a callback was taken, a second
/// callback for the same identifier from the same caller fails with
/// `ComputationAlreadyResolved`, and a callback from anyone fails, yields no
/// event and changes nothing.
pub proof fn lemma_resolved_only_once(
    requests: Requests,
    identifier: u64,
    caller: Identity,
    first: ComputationOutcome,
    again: Identity,
    second: ComputationOutcome,
)
    requires
        resolution(requests, identifier, caller, first).1 is Ok || resolution(
            requests,
            identifier,
            caller,
            first,
        ).1 == Err::<NetPayCalculated, ErrorCode>(ErrorCode::AbortedComputation),
    ensures
        ({
            let after = resolution(requests, identifier, caller, first).0;
            &&& resolution(after, identifier, caller, second) == (
                after,
                Err::<NetPayCalculated, ErrorCode>(ErrorCode::ComputationAlreadyResolved),
            )
            &&& resolution(after, identifier, again, second).1 is Err
            &&& resolution(after, identifier, again, second).0 == after
        }),
{
}

/// A callback is dispatched once: after a callback was dispatched, a second
/// one for the same identifier from the same caller fails with
/// `ComputationAlreadyResolved`, yields no event and changes nothing.
pub proof fn lemma_dispatched_only_once(
    requests: Requests,
    identifier: u64,
    caller: Identity,
    first: ComputationOutcome,
    second: ComputationOutcome,
)
    requires
        dispatch(requests, identifier, caller, first).1 is Ok || dispatch(
            requests,
            identifier,
            caller,
            first,
        ).1 == Err::<NetPayCalculated, ErrorCode>(ErrorCode::AbortedComputation),
    ensures
        ({
            let after = dispatch(requests, identifier, caller, first).0;
            dispatch(after, identifier, caller, second) == (
                after,
                Err::<NetPayCalculated, ErrorCode>(ErrorCode::ComputationAlreadyResolved),
            )
        }),
{
}

/// An aborted computation closes its request: the callback of the
/// designated caller for a pending request fails with `AbortedComputation`,
/// and leaves the request closed and every other request as it was.
pub proof fn lemma_aborted_callback_closes(requests: Requests, identifier: u64, caller: Identity)
    requires
        is_authentic(requests, identifier, caller),
        requests[identifier].status == RequestStatus::Pending,
    ensures
        ({
            let done = dispatch(requests, identifier, caller, ComputationOutcome::Aborted);
            &&& done.1 == Err::<NetPayCalculated, ErrorCode>(ErrorCode::AbortedComputation)
            &&& done.0 == requests.insert(
                identifier,
                requests[identifier].with_status(RequestStatus::Closed),
            )
        }),
{
    let taken = resolution(requests, identifier, caller, ComputationOutcome::Aborted);
    assert(closing(taken.0, identifier).0 =~= requests.insert(
        identifier,
        requests[identifier].with_status(RequestStatus::Closed),
    ));
}

} // verus!
