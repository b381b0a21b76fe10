//! The lifecycle of a loan.
use lending::state::{Env, LendingContract};
use lending::types::{
    Address, DataKey, Event, InterestRateModel, LoanRecord, LoanStatus, PaymentRecord,
};
use lending::LendingError;

const DAY: u64 = 86_400;
const NOW: u64 = 1_700_000_000;

fn named(kind: u8, n: u8) -> Address {
    let mut strkey = [b'A'; 56];
    strkey[0] = kind;
    strkey[55] = n;
    Address { strkey }
}

fn pool() -> Address {
    named(b'C', 0)
}

fn admin() -> Address {
    named(b'G', 1)
}

fn borrower() -> Address {
    named(b'G', 2)
}

fn lender() -> Address {
    named(b'G', 3)
}

fn stranger() -> Address {
    named(b'G', 9)
}

fn at(timestamp: u64, who: Address) -> Env {
    Env { timestamp, authorizers: vec![who] }
}

fn initialised() -> LendingContract {
    let mut c = LendingContract::new(pool());
    c.initialize(admin()).unwrap();
    c
}

/// A request of 10 000 at 12 % for 365 days: 1200 interest.
fn request(c: &mut LendingContract) -> Result<u32, LendingError> {
    c.create_loan_request(
        &at(NOW, borrower()),
        borrower(),
        10_000,
        365,
        1200,
        50_000,
        admin(),
        700,
        InterestRateModel::Fixed,
    )
}

fn active() -> LendingContract {
    let mut c = initialised();
    request(&mut c).unwrap();
    c.approve_loan(&at(NOW, lender()), lender(), 1, 77).unwrap();
    c.activate_loan(&at(NOW, admin()), admin(), 1).unwrap();
    c
}

#[test]
fn a_request_opens_a_pending_loan() {
    let mut c = initialised();
    assert_eq!(request(&mut c), Ok(1));
    let loan = c.get_loan(1).unwrap();
    assert_eq!(
        loan,
        LoanRecord {
            id: 1,
            borrower: borrower(),
            lender: pool(),
            amount: 10_000,
            duration_days: 365,
            interest_rate_bps: 1200,
            total_due: 11_200,
            remaining_due: 11_200,
            created_at: NOW,
            due_at: NOW + 365 * DAY,
            status: LoanStatus::Pending,
            escrow_id: 0,
            platform_fee: 12,
            collateral_asset: admin(),
            collateral_amount: 700,
            rate_model: InterestRateModel::Fixed,
            base_rate_bps: 1200,
            last_rate_update: NOW,
        }
    );
    assert_eq!(c.get_loan_count(), 1);
    assert!(c.has(&DataKey::Loan(1)));
    assert!(c.has(&DataKey::BorrowerLoans(borrower())));
    assert!(!c.has(&DataKey::LenderLoans(lender())));
    assert_eq!(
        c.events,
        vec![Event::LoanRequested {
            loan_id: 1,
            borrower: borrower(),
            amount: 10_000,
            duration_days: 365,
            interest_rate_bps: 1200,
            total_due: 11_200,
            due_at: NOW + 365 * DAY,
        }]
    );
    assert_eq!(c.events[0].topics(), ("loan", "request"));
}

#[test]
fn requests_are_numbered_and_listed() {
    let mut c = initialised();
    assert_eq!(request(&mut c), Ok(1));
    let other = c.create_loan_request(
        &at(NOW, stranger()),
        stranger(),
        1,
        1,
        0,
        1,
        admin(),
        1,
        InterestRateModel::Floating,
    );
    assert_eq!(other, Ok(2));
    assert_eq!(request(&mut c), Ok(3));
    assert_eq!(c.borrower_loans.get(&borrower()), Some(&vec![1, 3]));
    assert_eq!(c.borrower_loans.get(&stranger()), Some(&vec![2]));
    let small = c.get_loan(2).unwrap();
    assert_eq!(small.total_due, 1);
    assert_eq!(small.platform_fee, 0);
    assert_eq!(small.due_at, NOW + DAY);
    assert_eq!(c.get_loan(4), Err(LendingError::LoanNotFound));
    assert_eq!(c.get_loan(0), Err(LendingError::LoanNotFound));
}

fn refused(
    amount: i128,
    days: u32,
    rate: u32,
    limit: i128,
    asset: Address,
    collateral: i128,
    now: u64,
) -> LendingError {
    let mut c = initialised();
    let result = c.create_loan_request(
        &at(now, borrower()),
        borrower(),
        amount,
        days,
        rate,
        limit,
        asset,
        collateral,
        InterestRateModel::Fixed,
    );
    assert_eq!(c.get_loan_count(), 0);
    assert!(c.events.is_empty());
    assert!(!c.has(&DataKey::Loan(1)));
    result.unwrap_err()
}

#[test]
fn bad_requests_are_refused() {
    let max = i128::MAX;
    assert_eq!(refused(0, 30, 100, 10, admin(), 1, NOW), LendingError::LoanAmountNotPositive);
    assert_eq!(refused(-5, 30, 100, 10, admin(), 1, NOW), LendingError::LoanAmountNotPositive);
    assert_eq!(refused(11, 30, 100, 10, admin(), 1, NOW), LendingError::AmountExceedsLimit);
    assert_eq!(refused(10, 0, 100, 10, admin(), 1, NOW), LendingError::DurationOutOfRange);
    assert_eq!(refused(10, 366, 100, 10, admin(), 1, NOW), LendingError::DurationOutOfRange);
    assert_eq!(refused(10, 30, 100, 10, admin(), 0, NOW), LendingError::CollateralNotPositive);
    assert_eq!(
        refused(10, 30, 100, 10, stranger(), 1, NOW),
        LendingError::CollateralNotWhitelisted
    );
    assert_eq!(refused(max, 30, 2, max, admin(), 1, NOW), LendingError::InterestRateOverflow);
    assert_eq!(refused(max, 30, 1, max, admin(), 1, NOW), LendingError::InterestDaysOverflow);
    assert_eq!(refused(max, 1, 1, max, admin(), 1, NOW), LendingError::TotalDueOverflow);
    assert_eq!(refused(10, 1, 100, 10, admin(), 1, u64::MAX), LendingError::DueDateOverflow);
    assert_eq!(
        refused(10, 1, 100, 10, admin(), 1, u64::MAX - DAY + 1),
        LendingError::DueDateOverflow
    );
}

#[test]
fn a_platform_fee_that_is_too_large_is_refused() {
    let mut c = initialised();
    c.platform_fee_bps = Some(u32::MAX);
    let result = c.create_loan_request(
        &at(NOW, borrower()),
        borrower(),
        i128::MAX / 365,
        365,
        1,
        i128::MAX,
        admin(),
        1,
        InterestRateModel::Fixed,
    );
    assert_eq!(result, Err(LendingError::PlatformFeeOverflow));
}

#[test]
fn a_request_must_be_authorised() {
    let mut c = initialised();
    let result = c.create_loan_request(
        &at(NOW, stranger()),
        borrower(),
        10,
        30,
        100,
        10,
        admin(),
        1,
        InterestRateModel::Fixed,
    );
    assert_eq!(result, Err(LendingError::MissingAuthorisation));
}

#[test]
fn loan_ids_run_out() {
    let mut c = initialised();
    c.loan_count = Some(u32::MAX);
    assert_eq!(request(&mut c), Err(LendingError::LoanCountOverflow));
    c.loan_count = Some(u32::MAX - 1);
    assert_eq!(request(&mut c), Ok(u32::MAX));
}

#[test]
fn a_lender_approves_a_pending_loan() {
    let mut c = initialised();
    assert_eq!(
        c.approve_loan(&at(NOW, lender()), lender(), 1, 77),
        Err(LendingError::LoanNotFound)
    );
    request(&mut c).unwrap();
    assert_eq!(
        c.approve_loan(&at(NOW, stranger()), lender(), 1, 77),
        Err(LendingError::MissingAuthorisation)
    );
    let before = c.get_loan(1).unwrap();
    assert_eq!(c.approve_loan(&at(NOW, lender()), lender(), 1, 77), Ok(()));
    let loan = c.get_loan(1).unwrap();
    assert_eq!(
        loan,
        LoanRecord { lender: lender(), escrow_id: 77, status: LoanStatus::Approved, ..before }
    );
    assert_eq!(c.lender_loans.get(&lender()), Some(&vec![1]));
    assert_eq!(
        c.events[1],
        Event::LoanApproved { loan_id: 1, lender: lender(), escrow_id: 77 }
    );
    assert_eq!(c.events[1].topics(), ("loan", "approved"));
    assert_eq!(
        c.approve_loan(&at(NOW, stranger()), stranger(), 1, 5),
        Err(LendingError::LoanNotPending)
    );
}

#[test]
fn revoking_undoes_an_approval() {
    let mut c = initialised();
    request(&mut c).unwrap();
    let before = c.get_loan(1).unwrap();
    assert_eq!(
        c.revoke_approval(&at(NOW, pool()), pool(), 1),
        Err(LendingError::LoanNotApproved)
    );
    c.approve_loan(&at(NOW, lender()), lender(), 1, 77).unwrap();
    assert_eq!(
        c.revoke_approval(&at(NOW, stranger()), stranger(), 1),
        Err(LendingError::CallerNotLender)
    );
    assert_eq!(
        c.revoke_approval(&at(NOW, stranger()), lender(), 1),
        Err(LendingError::MissingAuthorisation)
    );
    assert_eq!(
        c.revoke_approval(&at(NOW, lender()), lender(), 2),
        Err(LendingError::LoanNotFound)
    );
    assert_eq!(c.revoke_approval(&at(NOW, lender()), lender(), 1), Ok(()));
    assert_eq!(c.get_loan(1), Ok(before));
    assert_eq!(c.events[2], Event::ApprovalRevoked { loan_id: 1 });
    assert_eq!(c.events[2].topics(), ("loan", "revoked"));
    // A second approval lists the loan once more.
    c.approve_loan(&at(NOW, lender()), lender(), 1, 78).unwrap();
    assert_eq!(c.lender_loans.get(&lender()), Some(&vec![1, 1]));
}

#[test]
fn an_approval_can_be_revoked_for_an_hour() {
    let mut c = initialised();
    request(&mut c).unwrap();
    let before = c.get_loan(1).unwrap();
    assert!(!c.has(&DataKey::ApprovedAt(1)));
    c.approve_loan(&at(NOW, lender()), lender(), 1, 77).unwrap();
    assert!(c.has(&DataKey::ApprovedAt(1)));
    assert_eq!(c.revoke_approval(&at(NOW + 3_600, lender()), lender(), 1), Ok(()));
    assert_eq!(c.get_loan(1), Ok(before));
}

#[test]
fn an_approval_cannot_be_revoked_after_an_hour() {
    let mut c = initialised();
    request(&mut c).unwrap();
    c.approve_loan(&at(NOW, lender()), lender(), 1, 77).unwrap();
    let approved = c.get_loan(1).unwrap();
    let events = c.events.len();
    assert_eq!(
        c.revoke_approval(&at(NOW + 3_601, lender()), lender(), 1),
        Err(LendingError::RevocationWindowClosed)
    );
    assert_eq!(
        c.revoke_approval(&at(u64::MAX, lender()), lender(), 1),
        Err(LendingError::RevocationWindowClosed)
    );
    assert_eq!(c.get_loan(1), Ok(approved));
    assert_eq!(approved.status, LoanStatus::Approved);
    assert_eq!(c.events.len(), events);
}

#[test]
fn a_new_approval_opens_a_new_window() {
    let mut c = initialised();
    request(&mut c).unwrap();
    c.approve_loan(&at(NOW, lender()), lender(), 1, 77).unwrap();
    c.revoke_approval(&at(NOW + 10, lender()), lender(), 1).unwrap();
    c.approve_loan(&at(NOW + 9_000, stranger()), stranger(), 1, 78).unwrap();
    assert_eq!(c.revoke_approval(&at(NOW + 12_600, stranger()), stranger(), 1), Ok(()));
}

#[test]
fn the_admin_activates_an_approved_loan() {
    let mut c = initialised();
    request(&mut c).unwrap();
    assert_eq!(
        c.activate_loan(&at(NOW, admin()), admin(), 1),
        Err(LendingError::ActivationNotApproved)
    );
    c.approve_loan(&at(NOW, lender()), lender(), 1, 77).unwrap();
    assert_eq!(
        c.activate_loan(&at(NOW, lender()), lender(), 1),
        Err(LendingError::CallerNotAdmin)
    );
    assert_eq!(
        c.activate_loan(&at(NOW, lender()), admin(), 1),
        Err(LendingError::MissingAuthorisation)
    );
    assert_eq!(
        c.activate_loan(&at(NOW, admin()), admin(), 2),
        Err(LendingError::LoanNotFound)
    );
    assert_eq!(c.activate_loan(&at(NOW, admin()), admin(), 1), Ok(()));
    assert_eq!(c.get_loan(1).unwrap().status, LoanStatus::Active);
    assert_eq!(c.events[2], Event::LoanActivated { loan_id: 1 });
    assert_eq!(c.events[2].topics(), ("loan", "active"));
    assert_eq!(
        c.revoke_approval(&at(NOW, lender()), lender(), 1),
        Err(LendingError::LoanNotApproved)
    );
}

#[test]
fn payments_lower_what_remains_until_the_loan_is_repaid() {
    let mut c = active();
    assert_eq!(c.get_payment_count(1), 0);
    assert_eq!(
        c.record_payment(&at(NOW + 5, admin()), admin(), 1, 1_200),
        Ok(LoanStatus::Active)
    );
    assert_eq!(c.get_loan(1).unwrap().remaining_due, 10_000);
    assert_eq!(c.get_payment_count(1), 1);
    assert_eq!(
        c.get_payment(1, 1),
        Ok(PaymentRecord { loan_id: 1, amount: 1_200, paid_at: NOW + 5 })
    );
    assert_eq!(
        c.events[3],
        Event::PaymentRecorded {
            loan_id: 1,
            amount: 1_200,
            remaining_due: 10_000,
            status: LoanStatus::Active,
        }
    );
    assert_eq!(c.events[3].topics(), ("loan", "payment"));
    assert_eq!(
        c.record_payment(&at(NOW + 6, admin()), admin(), 1, 9_999),
        Ok(LoanStatus::Active)
    );
    assert_eq!(c.get_loan(1).unwrap().remaining_due, 1);
    assert_eq!(
        c.record_payment(&at(NOW + 7, admin()), admin(), 1, 50),
        Ok(LoanStatus::Repaid)
    );
    let loan = c.get_loan(1).unwrap();
    assert_eq!(loan.remaining_due, 0);
    assert_eq!(loan.total_due, 11_200);
    assert_eq!(loan.status, LoanStatus::Repaid);
    assert_eq!(c.get_payment_count(1), 3);
    assert_eq!(c.get_payment(1, 2).unwrap().amount, 9_999);
    assert_eq!(c.get_payment(1, 3).unwrap().amount, 50);
    assert_eq!(c.get_payment(1, 4), Err(LendingError::PaymentNotFound));
    assert_eq!(c.get_payment(1, 0), Err(LendingError::PaymentNotFound));
    assert_eq!(c.get_payment_count(2), 0);
}

#[test]
fn a_payment_of_exactly_the_rest_repays() {
    let mut c = active();
    assert_eq!(
        c.record_payment(&at(NOW, admin()), admin(), 1, 11_200),
        Ok(LoanStatus::Repaid)
    );
    assert_eq!(c.get_loan(1).unwrap().remaining_due, 0);
}

#[test]
fn bad_payments_are_refused() {
    let mut c = active();
    assert_eq!(
        c.record_payment(&at(NOW, stranger()), stranger(), 1, 5),
        Err(LendingError::CallerNotAdmin)
    );
    assert_eq!(
        c.record_payment(&at(NOW, stranger()), admin(), 1, 5),
        Err(LendingError::MissingAuthorisation)
    );
    assert_eq!(
        c.record_payment(&at(NOW, admin()), admin(), 2, 5),
        Err(LendingError::LoanNotFound)
    );
    assert_eq!(
        c.record_payment(&at(NOW, admin()), admin(), 1, 0),
        Err(LendingError::PaymentNotPositive)
    );
    assert_eq!(
        c.record_payment(&at(NOW, admin()), admin(), 1, -1),
        Err(LendingError::PaymentNotPositive)
    );
    c.payment_counts.set(1, u32::MAX);
    assert_eq!(
        c.record_payment(&at(NOW, admin()), admin(), 1, 5),
        Err(LendingError::PaymentCountOverflow)
    );
    assert_eq!(c.get_loan(1).unwrap().remaining_due, 11_200);
    let mut c = initialised();
    request(&mut c).unwrap();
    assert_eq!(
        c.record_payment(&at(NOW, admin()), admin(), 1, 5),
        Err(LendingError::LoanNotActive)
    );
}

#[test]
fn closed_loans_stay_as_they_are() {
    let mut c = active();
    assert_eq!(
        c.mark_defaulted(&at(NOW, stranger()), stranger(), 1),
        Err(LendingError::CallerNotAdmin)
    );
    assert_eq!(
        c.mark_defaulted(&at(NOW, admin()), admin(), 2),
        Err(LendingError::LoanNotFound)
    );
    assert_eq!(c.mark_defaulted(&at(NOW, admin()), admin(), 1), Ok(()));
    let loan = c.get_loan(1).unwrap();
    assert_eq!(loan.status, LoanStatus::Defaulted);
    assert_eq!(c.events[3], Event::LoanDefaulted { loan_id: 1 });
    assert_eq!(c.events[3].topics(), ("loan", "default"));
    let events = c.events.len();
    assert_eq!(
        c.mark_defaulted(&at(NOW, admin()), admin(), 1),
        Err(LendingError::DefaultNotActive)
    );
    assert_eq!(
        c.record_payment(&at(NOW, admin()), admin(), 1, 5),
        Err(LendingError::LoanNotActive)
    );
    assert_eq!(
        c.switch_rate_model(&at(NOW, borrower()), borrower(), 1),
        Err(LendingError::SwitchNotActive)
    );
    assert_eq!(
        c.approve_loan(&at(NOW, lender()), lender(), 1, 5),
        Err(LendingError::LoanNotPending)
    );
    assert_eq!(c.get_loan(1), Ok(loan));
    assert_eq!(c.events.len(), events);
}

#[test]
fn other_loans_are_not_touched() {
    let mut c = active();
    request(&mut c).unwrap();
    let second = c.get_loan(2).unwrap();
    c.record_payment(&at(NOW, admin()), admin(), 1, 100).unwrap();
    c.mark_defaulted(&at(NOW, admin()), admin(), 1).unwrap();
    assert_eq!(c.get_loan(2), Ok(second));
    assert_eq!(c.get_payment_count(2), 0);
}

#[test]
fn overdue_loans_are_counted_in_whole_days() {
    let mut c = initialised();
    request(&mut c).unwrap();
    let due = NOW + 365 * DAY;
    let late = Env { timestamp: due + 10 * DAY, authorizers: vec![] };
    assert_eq!(c.is_overdue(&late, 1), Ok(false));
    assert_eq!(c.days_overdue(&late, 1), Ok(0));
    let c = active();
    let on_time = Env { timestamp: due, authorizers: vec![] };
    assert_eq!(c.is_overdue(&on_time, 1), Ok(false));
    assert_eq!(c.days_overdue(&on_time, 1), Ok(0));
    let just_late = Env { timestamp: due + 1, authorizers: vec![] };
    assert_eq!(c.is_overdue(&just_late, 1), Ok(true));
    assert_eq!(c.days_overdue(&just_late, 1), Ok(0));
    assert_eq!(c.is_overdue(&late, 1), Ok(true));
    assert_eq!(c.days_overdue(&late, 1), Ok(10));
    let later = Env { timestamp: due + 11 * DAY - 1, authorizers: vec![] };
    assert_eq!(c.days_overdue(&later, 1), Ok(10));
    assert_eq!(c.is_overdue(&late, 2), Err(LendingError::LoanNotFound));
    assert_eq!(c.days_overdue(&late, 2), Err(LendingError::LoanNotFound));
}

#[test]
fn platform_fee_follows_governance() {
    let mut c = initialised();
    c.set_multisig_admin(&at(NOW, admin()), admin(), stranger()).unwrap();
    c.set_governance(&at(NOW, stranger()), stranger(), lender()).unwrap();
    c.set_platform_fee_bps(&at(NOW, lender()), lender(), 1000).unwrap();
    request(&mut c).unwrap();
    assert_eq!(c.get_loan(1).unwrap().platform_fee, 120);
}
