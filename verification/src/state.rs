//! The durable records: a payroll group and the employees paid from it.

use vstd::prelude::*;
use vstd::utf8::encode_utf8;

verus! {

/// The identity of a party or of an account on the ledger.
pub type Identity = [u8; 32];

/// The longest identifier, in bytes, that a record holds.
pub const MAX_ID_BYTES: usize = 64;

/// The largest tax rate: one hundred percent, in basis points.
pub const MAX_TAX_RATE_BPS: u16 = 10000;

/// The number of bytes that an identifier takes in a record.
pub open spec fn id_bytes(id: Seq<char>) -> nat {
    encode_utf8(id).len()
}

/// How often an employee is paid.
#[derive(Clone, Copy, Debug, PartialEq, Eq, Structural)]
pub enum PaymentFrequency {
    Weekly,
    BiWeekly,
    Monthly,
}

impl PaymentFrequency {
    /// The least number of seconds between two payments: 7, 14 or 30 days.
    pub open spec fn interval_seconds(self) -> int {
        match self {
            PaymentFrequency::Weekly => 604800,
            PaymentFrequency::BiWeekly => 1209600,
            PaymentFrequency::Monthly => 2592000,
        }
    }

    /// Looks up the payment interval, in seconds.
    pub fn interval(&self) -> (seconds: i64)
        ensures
            seconds == self.interval_seconds(),
    {
        match self {
            PaymentFrequency::Weekly => 7 * 24 * 60 * 60,
            PaymentFrequency::BiWeekly => 14 * 24 * 60 * 60,
            PaymentFrequency::Monthly => 30 * 24 * 60 * 60,
        }
    }
}

/// Whether an employee can be paid at a given time.
#[derive(Clone, Copy, Debug, PartialEq, Eq, Structural)]
pub enum Eligibility {
    /// The payment interval has elapsed since the last payment.
    Eligible,
    /// The payment interval has not elapsed yet.
    NotYetDue,
}

/// One payroll group.
#[derive(Clone, Debug, PartialEq, Eq)]
pub struct Payroll {
    /// Who administers the payroll.
    pub authority: Identity,
    /// The human-readable identifier.
    pub payroll_id: String,
    /// The token in which the payroll pays.
    pub payment_token: Identity,
    /// How many employees were registered.
    pub employee_count: u64,
    /// Whether the payroll accepts deposits, registrations and payments.
    pub is_active: bool,
    /// The tax rate, in basis points.
    pub tax_rate: u16,
    /// The funds in the vault: deposits less payments.
    pub total_funds: u64,
    /// The credential from which the vault's transfer authority is derived.
    pub vault_bump: u8,
}

impl Payroll {
    /// The ranges that the attributes of a payroll lie in.
    pub open spec fn well_formed(self) -> bool {
        &&& id_bytes(self.payroll_id@) <= MAX_ID_BYTES
        &&& self.tax_rate <= MAX_TAX_RATE_BPS
    }

    /// The payroll with `amount` added to the vault.
    pub open spec fn credited(self, amount: u64) -> Payroll {
        Payroll { total_funds: (self.total_funds + amount) as u64, ..self }
    }

    /// The payroll with `amount` taken from the vault.
    pub open spec fn debited(self, amount: u64) -> Payroll {
        Payroll { total_funds: (self.total_funds - amount) as u64, ..self }
    }

    /// The payroll with one more employee registered.
    pub open spec fn with_employee_added(self) -> Payroll {
        Payroll { employee_count: (self.employee_count + 1) as u64, ..self }
    }

    /// The payroll with its active flag set to `active`.
    pub open spec fn with_active(self, active: bool) -> Payroll {
        Payroll { is_active: active, ..self }
    }
}

/// One worker of one payroll.
#[derive(Clone, Debug, PartialEq, Eq)]
pub struct Employee {
    /// The payroll that the employee belongs to.
    pub payroll: Identity,
    /// The human-readable identifier.
    pub employee_id: String,
    /// Where payments go.
    pub wallet: Identity,
    /// The gross salary per payment.
    pub salary_amount: u64,
    /// What is deducted from each payment besides tax.
    pub deductions: u64,
    /// How often the employee is paid.
    pub payment_frequency: PaymentFrequency,
    /// The time of the last payment; 0 if there was none.
    pub last_payment: i64,
    /// Whether the employee can be paid.
    pub is_active: bool,
}

impl Employee {
    /// The ranges that the attributes of an employee lie in.
    pub open spec fn well_formed(self) -> bool {
        id_bytes(self.employee_id@) <= MAX_ID_BYTES
    }

    /// The employee after a payment at `now`.
    pub open spec fn paid_at(self, now: i64) -> Employee {
        Employee { last_payment: now, ..self }
    }

    /// Whether the payment interval has elapsed at `now`.
    pub open spec fn is_due(self, now: int) -> bool {
        now - self.last_payment >= self.payment_frequency.interval_seconds()
    }

    /// Tells whether the employee can be paid at `now`.
    pub fn eligibility(&self, now: i64) -> (state: Eligibility)
        ensures
            state == Eligibility::Eligible <==> self.is_due(now as int),
            state == Eligibility::NotYetDue <==> !self.is_due(now as int),
    {
        let elapsed: i128 = now as i128 - self.last_payment as i128;
        if elapsed >= self.payment_frequency.interval() as i128 {
            Eligibility::Eligible
        } else {
            Eligibility::NotYetDue
        }
    }
}

} // verus!
