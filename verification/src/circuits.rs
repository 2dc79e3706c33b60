//! The numeric contract of the confidential net-pay circuit.
//!
//! The cluster evaluates the circuit over encrypted operands. What it
//! computes is stated here over plain integers, and the settlement step uses
//! the same formula.

use vstd::prelude::*;

verus! {

/// Tax withheld from `salary` at `tax_rate_bps` basis points, rounded down.
pub open spec fn tax_amount(salary: int, tax_rate_bps: int) -> int {
    (salary * tax_rate_bps) / 10000
}

/// Net pay: the salary less tax and deductions.
pub open spec fn net_pay(salary: int, tax_rate_bps: int, deductions: int) -> int {
    salary - tax_amount(salary, tax_rate_bps) - deductions
}

/// Whether the net pay is an amount: tax and deductions together do not
/// exceed the salary.
pub open spec fn net_pay_defined(salary: int, tax_rate_bps: int, deductions: int) -> bool {
    tax_amount(salary, tax_rate_bps) + deductions <= salary
}

/// The operands of the net-pay circuit.
#[derive(Clone, Copy, Debug, PartialEq, Eq)]
pub struct PayrollInput {
    /// The gross salary.
    pub salary: u64,
    /// The tax rate in basis points (10000 is one hundred percent).
    pub tax_rate: u16,
    /// What is deducted besides tax.
    pub deductions: u64,
}

impl PayrollInput {
    /// Whether the circuit yields an amount on these operands.
    pub open spec fn payable(self) -> bool {
        net_pay_defined(self.salary as int, self.tax_rate as int, self.deductions as int)
    }
}

/// Up to one hundred percent, the tax does not exceed the salary.
pub proof fn lemma_tax_within_salary(salary: int, tax_rate_bps: int)
    requires
        0 <= salary,
        0 <= tax_rate_bps <= 10000,
    ensures
        0 <= tax_amount(salary, tax_rate_bps) <= salary,
{
    assert(0 <= salary * tax_rate_bps <= salary * 10000) by (nonlinear_arith)
        requires
            0 <= salary,
            0 <= tax_rate_bps <= 10000,
    ;
}

/// Computes the tax withheld from `salary`, in a widened domain.
pub fn compute_tax(salary: u64, tax_rate_bps: u16) -> (tax: u128)
    ensures
        tax == tax_amount(salary as int, tax_rate_bps as int),
{
    let wide_salary: u128 = salary as u128;
    let wide_rate: u128 = tax_rate_bps as u128;
    assert(wide_salary * wide_rate <= 0xffff_ffff_ffff_ffff * 0xffff) by (nonlinear_arith)
        requires
            wide_salary <= 0xffff_ffff_ffff_ffff,
            wide_rate <= 0xffff,
    ;
    (wide_salary * wide_rate) / 10000
}

/// Computes the net pay where it is an amount, and `None` where tax and
/// deductions exceed the salary.
pub fn checked_net_pay(salary: u64, tax_rate_bps: u16, deductions: u64) -> (net: Option<u64>)
    ensures
        net is Some <==> net_pay_defined(salary as int, tax_rate_bps as int, deductions as int),
        net is Some ==> net->0 == net_pay(salary as int, tax_rate_bps as int, deductions as int),
{
    let tax: u128 = compute_tax(salary, tax_rate_bps);
    let wide_salary: u128 = salary as u128;
    if tax > wide_salary {
        return None;
    }
    let after_tax: u64 = salary - tax as u64;
    if deductions > after_tax {
        None
    } else {
        Some(after_tax - deductions)
    }
}

/// The net-pay circuit on plain operands: the tax is computed in a widened
/// domain, the subtractions in the domain of the salary.
pub fn calculate_net_pay(input: PayrollInput) -> (net: u64)
    requires
        input.payable(),
    ensures
        net == net_pay(input.salary as int, input.tax_rate as int, input.deductions as int),
{
    let tax_amount: u128 = compute_tax(input.salary, input.tax_rate);
    input.salary - tax_amount as u64 - input.deductions
}

} // verus!
