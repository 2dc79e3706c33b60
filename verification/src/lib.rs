//! Confidential payroll settlement.
//!
//! Salaries, tax rates and deductions are processed by a computation cluster
//! that works on ciphertexts. This crate holds the ledger side: the payroll
//! and employee records, the registry that correlates a queued computation
//! with its callback, and the settlement step that gates a payment by its
//! interval and by the funds in the vault. Every function is stated over the
//! records themselves and proved against its contract.

pub mod bookkeeping;
pub mod circuits;
pub mod codec;
pub mod computation;
pub mod errors;
pub mod events;
pub mod laws;
pub mod registry;
pub mod settlement;
pub mod state;

pub use bookkeeping::{add_employee, initialize_payroll, pause_payroll, resume_payroll};
pub use circuits::PayrollInput;
pub use computation::{calculate_net_pay, calculate_net_pay_callback};
pub use errors::ErrorCode;
pub use events::{
    EmployeeAdded, FundsDeposited, NetPayCalculated, PaymentProcessed, PayrollInitialized,
    PayrollPaused, PayrollResumed,
};
pub use settlement::{deposit_funds, process_payment};
pub use state::{Employee, PaymentFrequency, Payroll};
