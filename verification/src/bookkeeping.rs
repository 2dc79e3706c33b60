//! Keeping the records: creating a payroll, registering an employee,
//! pausing and resuming.

use vstd::prelude::*;
use crate::errors::ErrorCode;
use crate::events::{EmployeeAdded, PayrollInitialized, PayrollPaused, PayrollResumed};
use crate::state::{
    id_bytes, Employee, Identity, PaymentFrequency, Payroll, MAX_ID_BYTES, MAX_TAX_RATE_BPS,
};

verus! {

/// The number of bytes that `id` takes in a record.
pub fn id_length(id: &String) -> (length: usize)
    ensures
        length == id_bytes(id@),
{
    id.as_str().as_bytes().len()
}

/// Creates the record of a payroll: active, without employees and with an
/// empty vault. The record is well formed exactly if the identifier and the
/// tax rate are in range.
pub fn initialize_payroll(
    authority: Identity,
    payroll_id: String,
    payment_token: Identity,
    tax_rate: u16,
    vault_bump: u8,
) -> (created: (Payroll, PayrollInitialized))
    ensures
        created.0.authority == authority,
        created.0.payroll_id@ == payroll_id@,
        created.0.payment_token == payment_token,
        created.0.employee_count == 0,
        created.0.is_active,
        created.0.tax_rate == tax_rate,
        created.0.total_funds == 0,
        created.0.vault_bump == vault_bump,
        created.1.payroll_id@ == payroll_id@,
        created.1.authority == authority,
        created.1.tax_rate == tax_rate,
        created.0.well_formed() <==> id_bytes(payroll_id@) <= MAX_ID_BYTES && tax_rate
            <= MAX_TAX_RATE_BPS,
{
    let event = PayrollInitialized { payroll_id: payroll_id.clone(), authority, tax_rate };
    let payroll = Payroll {
        authority,
        payroll_id,
        payment_token,
        employee_count: 0,
        is_active: true,
        tax_rate,
        total_funds: 0,
        vault_bump,
    };
    (payroll, event)
}

/// Whether an employee with identifier `employee_id` can be registered with
/// `payroll`, or the first reason in order why not.
pub open spec fn registration_decision(payroll: Payroll, employee_id: Seq<char>) -> Result<
    (),
    ErrorCode,
> {
    if !payroll.is_active {
        Err(ErrorCode::PayrollInactive)
    } else if id_bytes(employee_id) > MAX_ID_BYTES {
        Err(ErrorCode::InvalidEmployeeId)
    } else {
        Ok(())
    }
}

/// Whether a registration can be decided: where it is allowed, the count of
/// employees stays within its range.
pub open spec fn registration_fits(payroll: Payroll, employee_id: Seq<char>) -> bool {
    registration_decision(payroll, employee_id) is Ok ==> payroll.employee_count < u64::MAX
}

/// Tells whether `add_employee` can be called with `employee_id`.
pub fn can_add_employee(payroll: &Payroll, employee_id: &String) -> (fits: bool)
    ensures
        fits == registration_fits(*payroll, employee_id@),
{
    !payroll.is_active || id_length(employee_id) > MAX_ID_BYTES || payroll.employee_count
        < u64::MAX
}

/// Registers an employee with the payroll stored at `payroll_key`.
///
/// Fails with `PayrollInactive` if the payroll is paused, and with
/// `InvalidEmployeeId` if the identifier takes more than 64 bytes; a failure
/// changes nothing. Otherwise the payroll counts one employee more, and the
/// new record is active and was never paid, so that a first payment is due
/// once one interval has passed since time 0.
pub fn add_employee(
    payroll: &mut Payroll,
    payroll_key: Identity,
    employee_id: String,
    employee_wallet: Identity,
    salary_amount: u64,
    deductions: u64,
    payment_frequency: PaymentFrequency,
) -> (result: Result<(Employee, EmployeeAdded), ErrorCode>)
    requires
        registration_fits(*old(payroll), employee_id@),
    ensures
        match result {
            Ok((employee, event)) => {
                &&& registration_decision(*old(payroll), employee_id@) is Ok
                &&& *final(payroll) == old(payroll).with_employee_added()
                &&& employee.payroll == payroll_key
                &&& employee.employee_id@ == employee_id@
                &&& employee.wallet == employee_wallet
                &&& employee.salary_amount == salary_amount
                &&& employee.deductions == deductions
                &&& employee.payment_frequency == payment_frequency
                &&& employee.last_payment == 0
                &&& employee.is_active
                &&& employee.well_formed()
                &&& event.payroll_id@ == old(payroll).payroll_id@
                &&& event.employee_id@ == employee_id@
                &&& event.salary_amount == salary_amount
                &&& event.deductions == deductions
            },
            Err(error) => {
                &&& registration_decision(*old(payroll), employee_id@) == Err::<(), ErrorCode>(
                    error,
                )
                &&& *final(payroll) == *old(payroll)
            },
        },
{
    if !payroll.is_active {
        return Err(ErrorCode::PayrollInactive);
    }
    if id_length(&employee_id) > MAX_ID_BYTES {
        return Err(ErrorCode::InvalidEmployeeId);
    }
    let employee = Employee {
        payroll: payroll_key,
        employee_id: employee_id.clone(),
        wallet: employee_wallet,
        salary_amount,
        deductions,
        payment_frequency,
        last_payment: 0,
        is_active: true,
    };
    payroll.employee_count = payroll.employee_count + 1;
    let event = EmployeeAdded {
        payroll_id: payroll.payroll_id.clone(),
        employee_id,
        salary_amount,
        deductions,
    };
    Ok((employee, event))
}

/// The payroll after an attempt to pause it: paused.
pub open spec fn after_pause(payroll: Payroll) -> Payroll {
    if payroll.is_active {
        payroll.with_active(false)
    } else {
        payroll
    }
}

/// The payroll after an attempt to resume it: active.
pub open spec fn after_resume(payroll: Payroll) -> Payroll {
    if payroll.is_active {
        payroll
    } else {
        payroll.with_active(true)
    }
}

/// Pauses an active payroll. On a payroll that is paused already it fails
/// with `PayrollActive` and changes nothing.
pub fn pause_payroll(payroll: &mut Payroll) -> (result: Result<PayrollPaused, ErrorCode>)
    ensures
        *final(payroll) == after_pause(*old(payroll)),
        result is Ok <==> old(payroll).is_active,
        result matches Ok(event) ==> event.payroll_id@ == old(payroll).payroll_id@,
        result matches Err(error) ==> error == ErrorCode::PayrollActive,
{
    if !payroll.is_active {
        return Err(ErrorCode::PayrollActive);
    }
    payroll.is_active = false;
    Ok(PayrollPaused { payroll_id: payroll.payroll_id.clone() })
}

/// Resumes a paused payroll. On a payroll that is active it fails with
/// `PayrollInactive` and changes nothing.
pub fn resume_payroll(payroll: &mut Payroll) -> (result: Result<PayrollResumed, ErrorCode>)
    ensures
        *final(payroll) == after_resume(*old(payroll)),
        result is Ok <==> !old(payroll).is_active,
        result matches Ok(event) ==> event.payroll_id@ == old(payroll).payroll_id@,
        result matches Err(error) ==> error == ErrorCode::PayrollInactive,
{
    if payroll.is_active {
        return Err(ErrorCode::PayrollInactive);
    }
    payroll.is_active = true;
    Ok(PayrollResumed { payroll_id: payroll.payroll_id.clone() })
}

} // verus!
