//! What an operation reports to observers of the ledger.

use vstd::prelude::*;
use crate::state::Identity;

verus! {

/// A payroll was created.
#[derive(Clone, Debug, PartialEq, Eq)]
pub struct PayrollInitialized {
    pub payroll_id: String,
    pub authority: Identity,
    pub tax_rate: u16,
}

/// An employee was registered.
#[derive(Clone, Debug, PartialEq, Eq)]
pub struct EmployeeAdded {
    pub payroll_id: String,
    pub employee_id: String,
    pub salary_amount: u64,
    pub deductions: u64,
}

/// The cluster returned a net pay. Both fields are ciphertext material and
/// are passed on as they came.
#[derive(Clone, Copy, Debug, PartialEq, Eq)]
pub struct NetPayCalculated {
    pub net_pay: [u8; 32],
    pub nonce: [u8; 16],
}

/// An employee was paid.
#[derive(Clone, Debug, PartialEq, Eq)]
pub struct PaymentProcessed {
    pub payroll_id: String,
    pub employee_id: String,
    pub gross_salary: u64,
    pub tax_amount: u64,
    pub deductions: u64,
    pub net_pay: u64,
}

/// Funds were added to the vault.
#[derive(Clone, Debug, PartialEq, Eq)]
pub struct FundsDeposited {
    pub payroll_id: String,
    pub amount: u64,
    pub total_funds: u64,
}

/// A payroll was paused.
#[derive(Clone, Debug, PartialEq, Eq)]
pub struct PayrollPaused {
    pub payroll_id: String,
}

/// A payroll was resumed.
#[derive(Clone, Debug, PartialEq, Eq)]
pub struct PayrollResumed {
    pub payroll_id: String,
}

} // verus!
