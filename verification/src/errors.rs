//! The failures an operation can report.

use vstd::prelude::*;

verus! {

/// Why an operation did not apply.
#[derive(Clone, Copy, Debug, PartialEq, Eq, Structural)]
pub enum ErrorCode {
    /// The cluster reported that the computation did not complete.
    AbortedComputation,
    /// The payroll is paused.
    PayrollInactive,
    /// The payroll is not in the state that the operation changes.
    PayrollActive,
    /// The employee is not active.
    EmployeeInactive,
    /// The employee identifier is longer than a record can hold.
    InvalidEmployeeId,
    /// The payment interval has not elapsed since the last payment.
    PaymentTooSoon,
    /// The vault holds less than the net pay.
    InsufficientFunds,
    /// The execution environment has no cluster assigned. The host reports
    /// this when it looks up the cluster; no function of this crate does.
    ClusterNotSet,
    /// The computation identifier denotes a request that is not closed.
    DuplicateComputationOffset,
    /// The callback does not come from the party the request designates.
    UnauthorizedCallback,
    /// The request has been resolved before.
    ComputationAlreadyResolved,
    /// An encrypted scalar does not have the fixed width.
    InvalidArgumentEncoding,
}

impl ErrorCode {
    /// The text shown for the error.
    pub open spec fn message_text(self) -> Seq<char> {
        match self {
            ErrorCode::AbortedComputation => "The computation was aborted"@,
            ErrorCode::PayrollInactive => "Payroll is not active"@,
            ErrorCode::PayrollActive => "Payroll is already active"@,
            ErrorCode::EmployeeInactive => "Employee is not active"@,
            ErrorCode::InvalidEmployeeId => "Invalid employee ID"@,
            ErrorCode::PaymentTooSoon => "Payment is too soon"@,
            ErrorCode::InsufficientFunds => "Insufficient funds in payroll vault"@,
            ErrorCode::ClusterNotSet => "Cluster not set"@,
            ErrorCode::DuplicateComputationOffset => "Computation offset is already in use"@,
            ErrorCode::UnauthorizedCallback => "Callback is not authorized"@,
            ErrorCode::ComputationAlreadyResolved => "Computation is already resolved"@,
            ErrorCode::InvalidArgumentEncoding => "Invalid argument encoding"@,
        }
    }

    /// Returns the text shown for the error.
    pub fn message(&self) -> (text: String)
        ensures
            text@ == self.message_text(),
    {
        match self {
            ErrorCode::AbortedComputation => "The computation was aborted".to_owned(),
            ErrorCode::PayrollInactive => "Payroll is not active".to_owned(),
            ErrorCode::PayrollActive => "Payroll is already active".to_owned(),
            ErrorCode::EmployeeInactive => "Employee is not active".to_owned(),
            ErrorCode::InvalidEmployeeId => "Invalid employee ID".to_owned(),
            ErrorCode::PaymentTooSoon => "Payment is too soon".to_owned(),
            ErrorCode::InsufficientFunds => "Insufficient funds in payroll vault".to_owned(),
            ErrorCode::ClusterNotSet => "Cluster not set".to_owned(),
            ErrorCode::DuplicateComputationOffset => "Computation offset is already in use".to_owned(),
            ErrorCode::UnauthorizedCallback => "Callback is not authorized".to_owned(),
            ErrorCode::ComputationAlreadyResolved => "Computation is already resolved".to_owned(),
            ErrorCode::InvalidArgumentEncoding => "Invalid argument encoding".to_owned(),
        }
    }
}

} // verus!
