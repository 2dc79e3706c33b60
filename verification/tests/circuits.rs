use confidential_payroll::circuits::{
    calculate_net_pay, checked_net_pay, compute_tax, PayrollInput,
};
use confidential_payroll::errors::ErrorCode;

#[test]
fn net_pay_of_a_typical_salary() {
    assert_eq!(compute_tax(100000, 1500), 15000);
    assert_eq!(
        calculate_net_pay(PayrollInput { salary: 100000, tax_rate: 1500, deductions: 5000 }),
        80000
    );
}

#[test]
fn tax_is_rounded_down() {
    assert_eq!(compute_tax(1, 10000), 1);
    assert_eq!(calculate_net_pay(PayrollInput { salary: 1, tax_rate: 10000, deductions: 0 }), 0);
    assert_eq!(compute_tax(1, 9999), 0);
    assert_eq!(calculate_net_pay(PayrollInput { salary: 1, tax_rate: 9999, deductions: 0 }), 1);
    assert_eq!(compute_tax(19999, 1), 1);
    assert_eq!(compute_tax(9999, 1), 0);
}

#[test]
fn tax_of_the_largest_salary_does_not_overflow() {
    assert_eq!(compute_tax(u64::MAX, 10000), u64::MAX as u128);
    assert_eq!(compute_tax(u64::MAX, u16::MAX), (u64::MAX as u128) * 65535 / 10000);
    assert_eq!(
        calculate_net_pay(PayrollInput { salary: u64::MAX, tax_rate: 5000, deductions: 0 }),
        u64::MAX - u64::MAX / 2
    );
}

#[test]
fn net_pay_is_undefined_when_tax_and_deductions_exceed_the_salary() {
    assert_eq!(checked_net_pay(100, 5000, 50), Some(0));
    assert_eq!(checked_net_pay(100, 5000, 51), None);
    assert_eq!(checked_net_pay(100, 10001, 0), Some(0));
    assert_eq!(checked_net_pay(10000, 10001, 0), None);
    assert_eq!(checked_net_pay(0, 0, 0), Some(0));
    assert_eq!(checked_net_pay(100000, 1500, 5000), Some(80000));
}

#[test]
fn every_error_has_its_text() {
    assert_eq!(ErrorCode::AbortedComputation.message(), "The computation was aborted");
    assert_eq!(ErrorCode::PayrollInactive.message(), "Payroll is not active");
    assert_eq!(ErrorCode::PayrollActive.message(), "Payroll is already active");
    assert_eq!(ErrorCode::EmployeeInactive.message(), "Employee is not active");
    assert_eq!(ErrorCode::InvalidEmployeeId.message(), "Invalid employee ID");
    assert_eq!(ErrorCode::PaymentTooSoon.message(), "Payment is too soon");
    assert_eq!(ErrorCode::InsufficientFunds.message(), "Insufficient funds in payroll vault");
    assert_eq!(ErrorCode::ClusterNotSet.message(), "Cluster not set");
    assert_eq!(
        ErrorCode::DuplicateComputationOffset.message(),
        "Computation offset is already in use"
    );
    assert_eq!(ErrorCode::UnauthorizedCallback.message(), "Callback is not authorized");
    assert_eq!(
        ErrorCode::ComputationAlreadyResolved.message(),
        "Computation is already resolved"
    );
    assert_eq!(ErrorCode::InvalidArgumentEncoding.message(), "Invalid argument encoding");
}
