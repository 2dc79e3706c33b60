//! The settlement state machine: deposits into the vault, and the payment
//! step that is gated by the payment interval and by the funds at hand.
//!
//! A payment moves tokens out of the vault. That transfer is the caller's to
//! perform: `process_payment` decides, says in a `VaultTransfer` what is to
//! be moved where and under which authority, and yields the records as they
//! stand once the transfer is done. The caller keeps them only if the
//! transfer succeeded.

use vstd::prelude::*;
use vstd::slice::slice_to_vec;
use crate::circuits::{checked_net_pay, compute_tax, net_pay, net_pay_defined, tax_amount};
use crate::errors::ErrorCode;
use crate::events::{FundsDeposited, PaymentProcessed};
use crate::state::{Eligibility, Employee, Identity, Payroll};

verus! {

/// Whether a payment of `employee` at `now` gets as far as computing the
/// amount: both records are active and the interval has elapsed.
pub open spec fn payment_is_due(payroll: Payroll, employee: Employee, now: int) -> bool {
    payroll.is_active && employee.is_active && employee.is_due(now)
}

/// The net pay of `employee` under the tax rate of `payroll`.
pub open spec fn net_pay_of(payroll: Payroll, employee: Employee) -> int {
    net_pay(employee.salary_amount as int, payroll.tax_rate as int, employee.deductions as int)
}

/// Whether a payment can be decided: where it is due, tax and deductions do
/// not exceed the salary.
pub open spec fn payment_computable(payroll: Payroll, employee: Employee, now: int) -> bool {
    payment_is_due(payroll, employee, now) ==> net_pay_defined(
        employee.salary_amount as int,
        payroll.tax_rate as int,
        employee.deductions as int,
    )
}

/// The decision on a payment of `employee` from `payroll` at `now`: the
/// amount to pay, or the first reason in order not to pay. It is read where
/// the payment can be computed (`payment_computable`).
pub open spec fn payment_decision(payroll: Payroll, employee: Employee, now: int) -> Result<
    int,
    ErrorCode,
> {
    if !payroll.is_active {
        Err(ErrorCode::PayrollInactive)
    } else if !employee.is_active {
        Err(ErrorCode::EmployeeInactive)
    } else if !employee.is_due(now) {
        Err(ErrorCode::PaymentTooSoon)
    } else if payroll.total_funds < net_pay_of(payroll, employee) {
        Err(ErrorCode::InsufficientFunds)
    } else {
        Ok(net_pay_of(payroll, employee))
    }
}

/// The records after the payment that `payment_decision` allows.
pub open spec fn settled(payroll: Payroll, employee: Employee, now: i64) -> (Payroll, Employee) {
    (payroll.debited(net_pay_of(payroll, employee) as u64), employee.paid_at(now))
}

/// The records after an attempt to pay `employee` at `now`: settled if the
/// payment is allowed, and as they were if it is not.
pub open spec fn after_payment(payroll: Payroll, employee: Employee, now: i64) -> (
    Payroll,
    Employee,
) {
    if payment_decision(payroll, employee, now as int) is Ok {
        settled(payroll, employee, now)
    } else {
        (payroll, employee)
    }
}

/// The decision on a deposit of `amount`: the balance afterwards, or
/// `PayrollInactive` if the payroll is paused.
pub open spec fn deposit_decision(payroll: Payroll, amount: u64) -> Result<int, ErrorCode> {
    if !payroll.is_active {
        Err(ErrorCode::PayrollInactive)
    } else {
        Ok(payroll.total_funds + amount)
    }
}

/// The payroll after an attempt to deposit `amount`: credited if the deposit
/// is allowed, and as it was if it is not.
pub open spec fn after_deposit(payroll: Payroll, amount: u64) -> Payroll {
    if deposit_decision(payroll, amount) is Ok {
        payroll.credited(amount)
    } else {
        payroll
    }
}

/// Whether a deposit of `amount` can be decided: where the payroll is
/// active, the balance stays within the range of the vault.
pub open spec fn deposit_fits(payroll: Payroll, amount: u64) -> bool {
    payroll.is_active ==> payroll.total_funds + amount <= u64::MAX
}

/// Tells whether `process_payment` can be called on these records at `now`.
pub fn can_process_payment(payroll: &Payroll, employee: &Employee, now: i64) -> (computable: bool)
    ensures
        computable == payment_computable(*payroll, *employee, now as int),
{
    if !payroll.is_active || !employee.is_active {
        return true;
    }
    match employee.eligibility(now) {
        Eligibility::NotYetDue => true,
        Eligibility::Eligible => checked_net_pay(
            employee.salary_amount,
            payroll.tax_rate,
            employee.deductions,
        ).is_some(),
    }
}

/// Tells whether `deposit_funds` can be called with `amount`.
pub fn can_deposit_funds(payroll: &Payroll, amount: u64) -> (fits: bool)
    ensures
        fits == deposit_fits(*payroll, amount),
{
    !payroll.is_active || amount <= u64::MAX - payroll.total_funds
}

/// The tag that opens the seeds of every vault authority.
pub const VAULT_SEED: [u8; 13] = [112, 97, 121, 114, 111, 108, 108, 95, 118, 97, 117, 108, 116];

/// Whether `seeds` are those of the authority over the vault of the payroll
/// stored under `payroll_key`: the tag, the key, and the credential kept in
/// the payroll.
pub open spec fn is_vault_authority(seeds: Seq<Vec<u8>>, payroll_key: Identity, vault_bump: u8) -> bool {
    &&& seeds.len() == 3
    &&& seeds[0]@ == VAULT_SEED@
    &&& seeds[1]@ == payroll_key@
    &&& seeds[2]@ == seq![vault_bump]
}

/// Derives the seeds under which the vault of a payroll signs a transfer.
/// They depend on the payroll's key and stored credential alone.
pub fn vault_signer_seeds(payroll_key: &Identity, vault_bump: u8) -> (seeds: Vec<Vec<u8>>)
    ensures
        is_vault_authority(seeds@, *payroll_key, vault_bump),
{
    let mut seeds: Vec<Vec<u8>> = Vec::new();
    seeds.push(slice_to_vec(VAULT_SEED.as_slice()));
    seeds.push(slice_to_vec(payroll_key.as_slice()));
    let mut bump: Vec<u8> = Vec::new();
    bump.push(vault_bump);
    seeds.push(bump);
    seeds
}

/// What a payment asks of the vault: to move `amount` to `destination`,
/// signed under `signer_seeds`.
#[derive(Clone, Debug, PartialEq, Eq)]
pub struct VaultTransfer {
    /// How much is to be moved.
    pub amount: u64,
    /// Where it goes: the payout destination of the employee.
    pub destination: Identity,
    /// The seeds of the vault's authority.
    pub signer_seeds: Vec<Vec<u8>>,
}

/// Pays `employee` from the payroll stored under `payroll_key` at time
/// `now`.
///
/// Fails, in this order, with `PayrollInactive` or `EmployeeInactive` if a
/// record is not active, with `PaymentTooSoon` if the interval of the
/// employee's frequency has not elapsed since the last payment, and with
/// `InsufficientFunds` if the vault holds less than the net pay. A failure
/// changes nothing. Otherwise the net pay leaves the vault balance and the
/// time of the last payment becomes `now`; the transfer names the net pay,
/// the employee's payout destination and the vault's authority, and the
/// event names gross salary, tax, deductions and net pay.
pub fn process_payment(
    payroll: &mut Payroll,
    payroll_key: &Identity,
    employee: &mut Employee,
    now: i64,
) -> (result: Result<(VaultTransfer, PaymentProcessed), ErrorCode>)
    requires
        payment_computable(*old(payroll), *old(employee), now as int),
    ensures
        (*final(payroll), *final(employee)) == after_payment(*old(payroll), *old(employee), now),
        match result {
            Ok((transfer, event)) => {
                &&& payment_decision(*old(payroll), *old(employee), now as int) == Ok::<
                    int,
                    ErrorCode,
                >(transfer.amount as int)
                &&& transfer.destination == old(employee).wallet
                &&& is_vault_authority(
                    transfer.signer_seeds@,
                    *payroll_key,
                    old(payroll).vault_bump,
                )
                &&& event.payroll_id@ == old(payroll).payroll_id@
                &&& event.employee_id@ == old(employee).employee_id@
                &&& event.gross_salary == old(employee).salary_amount
                &&& event.tax_amount == tax_amount(
                    old(employee).salary_amount as int,
                    old(payroll).tax_rate as int,
                )
                &&& event.deductions == old(employee).deductions
                &&& event.net_pay == net_pay_of(*old(payroll), *old(employee))
            },
            Err(error) => payment_decision(*old(payroll), *old(employee), now as int) == Err::<
                int,
                ErrorCode,
            >(error),
        },
        final(payroll).total_funds <= old(payroll).total_funds,
        final(employee).last_payment >= old(employee).last_payment,
{
    if !payroll.is_active {
        return Err(ErrorCode::PayrollInactive);
    }
    if !employee.is_active {
        return Err(ErrorCode::EmployeeInactive);
    }
    match employee.eligibility(now) {
        Eligibility::NotYetDue => {
            return Err(ErrorCode::PaymentTooSoon);
        },
        Eligibility::Eligible => {},
    }
    let tax_amount: u128 = compute_tax(employee.salary_amount, payroll.tax_rate);
    let net_pay: u64 = employee.salary_amount - tax_amount as u64 - employee.deductions;
    if payroll.total_funds < net_pay {
        return Err(ErrorCode::InsufficientFunds);
    }
    let event = PaymentProcessed {
        payroll_id: payroll.payroll_id.clone(),
        employee_id: employee.employee_id.clone(),
        gross_salary: employee.salary_amount,
        tax_amount: tax_amount as u64,
        deductions: employee.deductions,
        net_pay,
    };
    let transfer = VaultTransfer {
        amount: net_pay,
        destination: employee.wallet,
        signer_seeds: vault_signer_seeds(payroll_key, payroll.vault_bump),
    };
    payroll.total_funds = payroll.total_funds - net_pay;
    employee.last_payment = now;
    Ok((transfer, event))
}

/// Adds `amount` to the vault balance of an active payroll.
///
/// Fails with `PayrollInactive`, changing nothing, if the payroll is paused.
pub fn deposit_funds(payroll: &mut Payroll, amount: u64) -> (result: Result<
    FundsDeposited,
    ErrorCode,
>)
    requires
        deposit_fits(*old(payroll), amount),
    ensures
        *final(payroll) == after_deposit(*old(payroll), amount),
        match result {
            Ok(event) => {
                &&& deposit_decision(*old(payroll), amount) == Ok::<int, ErrorCode>(
                    event.total_funds as int,
                )
                &&& event.payroll_id@ == old(payroll).payroll_id@
                &&& event.amount == amount
                &&& event.total_funds == old(payroll).total_funds + amount
            },
            Err(error) => deposit_decision(*old(payroll), amount) == Err::<int, ErrorCode>(error),
        },
{
    if !payroll.is_active {
        return Err(ErrorCode::PayrollInactive);
    }
    payroll.total_funds = payroll.total_funds + amount;
    Ok(
        FundsDeposited {
            payroll_id: payroll.payroll_id.clone(),
            amount,
            total_funds: payroll.total_funds,
        },
    )
}

} // verus!
