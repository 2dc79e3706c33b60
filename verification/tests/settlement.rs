use confidential_payroll::bookkeeping::{
    add_employee, can_add_employee, id_length, initialize_payroll, pause_payroll, resume_payroll,
};
use confidential_payroll::errors::ErrorCode;
use confidential_payroll::events::{FundsDeposited, PaymentProcessed};
use confidential_payroll::settlement::{
    can_deposit_funds, can_process_payment, deposit_funds, process_payment, vault_signer_seeds,
    VaultTransfer,
};
use confidential_payroll::state::{Eligibility, Employee, PaymentFrequency, Payroll};

const WEEK: i64 = 604800;
const KEY: [u8; 32] = [9u8; 32];

fn payroll_with(tax_rate: u16, total_funds: u64) -> Payroll {
    let (mut payroll, _) =
        initialize_payroll([1u8; 32], String::from("acme"), [2u8; 32], tax_rate, 254);
    payroll.total_funds = total_funds;
    payroll
}

fn employee_with(salary: u64, deductions: u64, frequency: PaymentFrequency) -> Employee {
    let mut payroll = payroll_with(0, 0);
    let (employee, _) = add_employee(
        &mut payroll,
        [9u8; 32],
        String::from("e-1"),
        [3u8; 32],
        salary,
        deductions,
        frequency,
    )
    .unwrap();
    employee
}

#[test]
fn weekly_payment_is_due_after_exactly_seven_days() {
    let mut payroll = payroll_with(1500, 1_000_000);
    let mut employee = employee_with(100000, 5000, PaymentFrequency::Weekly);
    assert_eq!(employee.last_payment, 0);
    assert_eq!(employee.eligibility(WEEK), Eligibility::Eligible);
    let (transfer, event) = process_payment(&mut payroll, &KEY, &mut employee, WEEK).unwrap();
    assert_eq!(
        transfer,
        VaultTransfer {
            amount: 80000,
            destination: [3u8; 32],
            signer_seeds: vec![b"payroll_vault".to_vec(), KEY.to_vec(), vec![254u8]],
        }
    );
    assert_eq!(
        event,
        PaymentProcessed {
            payroll_id: String::from("acme"),
            employee_id: String::from("e-1"),
            gross_salary: 100000,
            tax_amount: 15000,
            deductions: 5000,
            net_pay: 80000,
        }
    );
    assert_eq!(payroll.total_funds, 920000);
    assert_eq!(employee.last_payment, WEEK);
}

#[test]
fn weekly_payment_one_second_early_is_too_soon() {
    let mut payroll = payroll_with(1500, 1_000_000);
    let mut employee = employee_with(100000, 5000, PaymentFrequency::Weekly);
    assert_eq!(employee.eligibility(WEEK - 1), Eligibility::NotYetDue);
    let before = (payroll.clone(), employee.clone());
    assert_eq!(
        process_payment(&mut payroll, &KEY, &mut employee, WEEK - 1).map(|paid| paid.1),
        Err(ErrorCode::PaymentTooSoon)
    );
    assert_eq!((payroll, employee), before);
}

#[test]
fn intervals_are_seven_fourteen_and_thirty_days() {
    assert_eq!(PaymentFrequency::Weekly.interval(), 7 * 86400);
    assert_eq!(PaymentFrequency::BiWeekly.interval(), 14 * 86400);
    assert_eq!(PaymentFrequency::Monthly.interval(), 30 * 86400);
    let biweekly = employee_with(10, 0, PaymentFrequency::BiWeekly);
    assert_eq!(biweekly.eligibility(1209599), Eligibility::NotYetDue);
    assert_eq!(biweekly.eligibility(1209600), Eligibility::Eligible);
    let monthly = employee_with(10, 0, PaymentFrequency::Monthly);
    assert_eq!(monthly.eligibility(2591999), Eligibility::NotYetDue);
    assert_eq!(monthly.eligibility(2592000), Eligibility::Eligible);
}

#[test]
fn eligibility_does_not_overflow_at_the_ends_of_time() {
    let mut employee = employee_with(10, 0, PaymentFrequency::Weekly);
    employee.last_payment = i64::MAX;
    assert_eq!(employee.eligibility(i64::MIN), Eligibility::NotYetDue);
    employee.last_payment = i64::MIN;
    assert_eq!(employee.eligibility(i64::MAX), Eligibility::Eligible);
}

#[test]
fn payment_fails_when_funds_are_one_short() {
    let mut payroll = payroll_with(0, 50);
    let mut employee = employee_with(51, 0, PaymentFrequency::Weekly);
    assert_eq!(
        process_payment(&mut payroll, &KEY, &mut employee, WEEK).map(|paid| paid.1),
        Err(ErrorCode::InsufficientFunds)
    );
    assert_eq!(payroll.total_funds, 50);
    assert_eq!(employee.last_payment, 0);
}

#[test]
fn payment_of_the_whole_balance_succeeds() {
    let mut payroll = payroll_with(0, 51);
    let mut employee = employee_with(51, 0, PaymentFrequency::Weekly);
    let (transfer, event) = process_payment(&mut payroll, &KEY, &mut employee, WEEK).unwrap();
    assert_eq!(transfer.amount, 51);
    assert_eq!(event.net_pay, 51);
    assert_eq!(payroll.total_funds, 0);
}

#[test]
fn second_payment_within_the_interval_is_too_soon() {
    let mut payroll = payroll_with(1000, 1_000_000);
    let mut employee = employee_with(1000, 0, PaymentFrequency::Weekly);
    let first = 2 * WEEK + 5;
    assert!(process_payment(&mut payroll, &KEY, &mut employee, first).is_ok());
    for second in [first + 1, first + WEEK / 2, first + WEEK - 1] {
        let before = (payroll.clone(), employee.clone());
        assert_eq!(
            process_payment(&mut payroll, &KEY, &mut employee, second).map(|paid| paid.1),
            Err(ErrorCode::PaymentTooSoon)
        );
        assert_eq!((payroll.clone(), employee.clone()), before);
    }
    assert!(process_payment(&mut payroll, &KEY, &mut employee, first + WEEK).is_ok());
    assert_eq!(payroll.total_funds, 1_000_000 - 2 * 900);
    assert_eq!(employee.last_payment, first + WEEK);
}

#[test]
fn inactive_payroll_is_reported_before_inactive_employee() {
    let mut payroll = payroll_with(0, 100);
    let mut employee = employee_with(10, 0, PaymentFrequency::Weekly);
    employee.is_active = false;
    assert_eq!(
        process_payment(&mut payroll, &KEY, &mut employee, WEEK).map(|paid| paid.1),
        Err(ErrorCode::EmployeeInactive)
    );
    pause_payroll(&mut payroll).unwrap();
    assert_eq!(
        process_payment(&mut payroll, &KEY, &mut employee, WEEK).map(|paid| paid.1),
        Err(ErrorCode::PayrollInactive)
    );
    assert_eq!(payroll.total_funds, 100);
    assert_eq!(employee.last_payment, 0);
}

#[test]
fn inactive_employee_is_reported_before_the_interval() {
    let mut payroll = payroll_with(0, 100);
    let mut employee = employee_with(10, 0, PaymentFrequency::Weekly);
    employee.is_active = false;
    assert_eq!(
        process_payment(&mut payroll, &KEY, &mut employee, 1).map(|paid| paid.1),
        Err(ErrorCode::EmployeeInactive)
    );
}

#[test]
fn too_soon_is_reported_before_insufficient_funds() {
    let mut payroll = payroll_with(0, 0);
    let mut employee = employee_with(10, 0, PaymentFrequency::Weekly);
    assert_eq!(
        process_payment(&mut payroll, &KEY, &mut employee, 1).map(|paid| paid.1),
        Err(ErrorCode::PaymentTooSoon)
    );
    assert_eq!(
        process_payment(&mut payroll, &KEY, &mut employee, WEEK).map(|paid| paid.1),
        Err(ErrorCode::InsufficientFunds)
    );
}

#[test]
fn payment_is_computable_unless_due_and_deductions_exceed_the_salary() {
    let payroll = payroll_with(5000, 100);
    let employee = employee_with(100, 51, PaymentFrequency::Weekly);
    assert!(can_process_payment(&payroll, &employee, WEEK - 1));
    assert!(!can_process_payment(&payroll, &employee, WEEK));
    let fair = employee_with(100, 50, PaymentFrequency::Weekly);
    assert!(can_process_payment(&payroll, &fair, WEEK));
    let mut paused = payroll.clone();
    pause_payroll(&mut paused).unwrap();
    assert!(can_process_payment(&paused, &employee, WEEK));
}

#[test]
fn balance_is_deposits_less_payments() {
    let mut payroll = payroll_with(2500, 0);
    let mut employee = employee_with(4000, 500, PaymentFrequency::BiWeekly);
    let mut deposited: u64 = 0;
    let mut disbursed: u64 = 0;
    let mut now: i64 = 0;
    for round in 0..20u64 {
        let amount = 1000 + 37 * round;
        if deposit_funds(&mut payroll, amount).is_ok() {
            deposited += amount;
        }
        now += 700000;
        if let Ok((transfer, event)) = process_payment(&mut payroll, &KEY, &mut employee, now) {
            disbursed += transfer.amount;
            assert_eq!(transfer.amount, 2500);
            assert_eq!(event.net_pay, 2500);
        }
        assert_eq!(payroll.total_funds, deposited - disbursed);
    }
    assert!(disbursed > 0);
    assert_eq!(payroll.total_funds, deposited - disbursed);
}

#[test]
fn deposit_adds_to_the_balance() {
    let mut payroll = payroll_with(0, 7);
    let event = deposit_funds(&mut payroll, 35).unwrap();
    assert_eq!(
        event,
        FundsDeposited { payroll_id: String::from("acme"), amount: 35, total_funds: 42 }
    );
    assert_eq!(payroll.total_funds, 42);
}

#[test]
fn deposit_into_a_paused_payroll_fails() {
    let mut payroll = payroll_with(0, 7);
    pause_payroll(&mut payroll).unwrap();
    assert_eq!(deposit_funds(&mut payroll, 35), Err(ErrorCode::PayrollInactive));
    assert_eq!(payroll.total_funds, 7);
}

#[test]
fn deposit_fits_up_to_the_range_of_the_vault() {
    let mut payroll = payroll_with(0, u64::MAX - 10);
    assert!(can_deposit_funds(&payroll, 10));
    assert!(!can_deposit_funds(&payroll, 11));
    assert_eq!(deposit_funds(&mut payroll, 10).unwrap().total_funds, u64::MAX);
    pause_payroll(&mut payroll).unwrap();
    assert!(can_deposit_funds(&payroll, 11));
}

#[test]
fn vault_seeds_are_tag_key_and_bump() {
    let key = [7u8; 32];
    let seeds = vault_signer_seeds(&key, 253);
    assert_eq!(seeds, vec![b"payroll_vault".to_vec(), key.to_vec(), vec![253u8]]);
}

#[test]
fn new_payroll_is_active_and_empty() {
    let (payroll, event) =
        initialize_payroll([1u8; 32], String::from("acme"), [2u8; 32], 1500, 254);
    assert_eq!(
        payroll,
        Payroll {
            authority: [1u8; 32],
            payroll_id: String::from("acme"),
            payment_token: [2u8; 32],
            employee_count: 0,
            is_active: true,
            tax_rate: 1500,
            total_funds: 0,
            vault_bump: 254,
        }
    );
    assert_eq!(event.payroll_id, "acme");
    assert_eq!(event.authority, [1u8; 32]);
    assert_eq!(event.tax_rate, 1500);
}

#[test]
fn new_employee_was_never_paid() {
    let mut payroll = payroll_with(0, 0);
    let (employee, event) = add_employee(
        &mut payroll,
        [9u8; 32],
        String::from("e-1"),
        [3u8; 32],
        4000,
        500,
        PaymentFrequency::Monthly,
    )
    .unwrap();
    assert_eq!(
        employee,
        Employee {
            payroll: [9u8; 32],
            employee_id: String::from("e-1"),
            wallet: [3u8; 32],
            salary_amount: 4000,
            deductions: 500,
            payment_frequency: PaymentFrequency::Monthly,
            last_payment: 0,
            is_active: true,
        }
    );
    assert_eq!(event.payroll_id, "acme");
    assert_eq!(event.employee_id, "e-1");
    assert_eq!(event.salary_amount, 4000);
    assert_eq!(event.deductions, 500);
    assert_eq!(payroll.employee_count, 1);
}

#[test]
fn employee_id_of_sixty_four_bytes_is_the_longest() {
    let mut payroll = payroll_with(0, 0);
    let longest = "x".repeat(64);
    let too_long = "x".repeat(65);
    assert!(add_employee(
        &mut payroll,
        [9u8; 32],
        longest,
        [3u8; 32],
        1,
        0,
        PaymentFrequency::Weekly
    )
    .is_ok());
    assert_eq!(
        add_employee(&mut payroll, [9u8; 32], too_long, [3u8; 32], 1, 0, PaymentFrequency::Weekly),
        Err(ErrorCode::InvalidEmployeeId)
    );
    assert_eq!(payroll.employee_count, 1);
}

#[test]
fn employee_id_is_measured_in_bytes() {
    let mut payroll = payroll_with(0, 0);
    let id = "\u{e9}".repeat(33);
    assert_eq!(id.chars().count(), 33);
    assert_eq!(id_length(&id), 66);
    assert_eq!(
        add_employee(&mut payroll, [9u8; 32], id, [3u8; 32], 1, 0, PaymentFrequency::Weekly),
        Err(ErrorCode::InvalidEmployeeId)
    );
}

#[test]
fn employee_cannot_join_a_paused_payroll() {
    let mut payroll = payroll_with(0, 0);
    pause_payroll(&mut payroll).unwrap();
    assert_eq!(
        add_employee(
            &mut payroll,
            [9u8; 32],
            "x".repeat(65),
            [3u8; 32],
            1,
            0,
            PaymentFrequency::Weekly
        ),
        Err(ErrorCode::PayrollInactive)
    );
    assert_eq!(payroll.employee_count, 0);
}

#[test]
fn registration_fits_below_the_last_count() {
    let mut payroll = payroll_with(0, 0);
    payroll.employee_count = u64::MAX;
    assert!(!can_add_employee(&payroll, &String::from("e-1")));
    assert!(can_add_employee(&payroll, &"x".repeat(65)));
    payroll.employee_count = u64::MAX - 1;
    assert!(can_add_employee(&payroll, &String::from("e-1")));
}

#[test]
fn pause_and_resume_alternate() {
    let mut payroll = payroll_with(0, 0);
    assert_eq!(resume_payroll(&mut payroll), Err(ErrorCode::PayrollInactive));
    assert!(payroll.is_active);
    assert_eq!(pause_payroll(&mut payroll).unwrap().payroll_id, "acme");
    assert!(!payroll.is_active);
    assert_eq!(pause_payroll(&mut payroll), Err(ErrorCode::PayrollActive));
    assert!(!payroll.is_active);
    assert_eq!(resume_payroll(&mut payroll).unwrap().payroll_id, "acme");
    assert!(payroll.is_active);
}
