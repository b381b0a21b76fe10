//! Laws that hold over several calls, on concrete values.
use lending::state::{Env, LendingContract};
use lending::types::{Address, InterestRateModel, LoanStatus};
use lending::LendingError;

const DAY: u64 = 86_400;
const NOW: u64 = 1_700_000_000;

fn account(n: u8) -> Address {
    let mut strkey = [b'A'; 56];
    strkey[0] = b'G';
    strkey[55] = n;
    Address { strkey }
}

fn at(timestamp: u64, who: Address) -> Env {
    Env { timestamp, authorizers: vec![account(200), who] }
}

fn admin() -> Address {
    account(1)
}

fn borrower() -> Address {
    account(2)
}

fn lender() -> Address {
    account(3)
}

fn active(count: u32) -> LendingContract {
    let mut c = LendingContract::new(account(0));
    c.initialize(admin()).unwrap();
    for id in 1..=count {
        let result = c.create_loan_request(
            &at(NOW, borrower()),
            borrower(),
            1_000_000,
            200,
            800,
            1_000_000,
            admin(),
            1,
            InterestRateModel::Floating,
        );
        assert_eq!(result, Ok(id));
        c.approve_loan(&at(NOW, lender()), lender(), id, id).unwrap();
        c.activate_loan(&at(NOW, admin()), admin(), id).unwrap();
    }
    c
}

fn paid(c: &LendingContract, loan_id: u32) -> i128 {
    (1..=c.get_payment_count(loan_id)).map(|i| c.get_payment(loan_id, i).unwrap().amount).sum()
}

fn books_balance(c: &LendingContract, loan_id: u32) -> bool {
    let loan = c.get_loan(loan_id).unwrap();
    loan.total_due == loan.remaining_due + paid(c, loan_id)
}

#[test]
fn books_balance_through_payments_and_rate_changes() {
    let mut c = active(1);
    assert!(books_balance(&c, 1));
    c.record_payment(&at(NOW + DAY, admin()), admin(), 1, 12_345).unwrap();
    assert!(books_balance(&c, 1));
    c.update_floating_rate(&at(NOW + 2 * DAY, admin()), admin(), 1, 1_234).unwrap();
    assert!(books_balance(&c, 1));
    c.switch_rate_model(&at(NOW + 3 * DAY, borrower()), borrower(), 1).unwrap();
    assert!(books_balance(&c, 1));
    c.record_payment(&at(NOW + 4 * DAY, admin()), admin(), 1, 999).unwrap();
    assert!(books_balance(&c, 1));
    assert_eq!(paid(&c, 1), 13_344);
    let rest = c.get_loan(1).unwrap().remaining_due;
    assert_eq!(
        c.record_payment(&at(NOW + 5 * DAY, admin()), admin(), 1, rest + 7),
        Ok(LoanStatus::Repaid)
    );
    let loan = c.get_loan(1).unwrap();
    assert_eq!(loan.remaining_due, 0);
    assert_eq!(paid(&c, 1), loan.total_due + 7);
}

#[test]
fn terms_never_change() {
    let mut c = active(1);
    let before = c.get_loan(1).unwrap();
    c.record_payment(&at(NOW, admin()), admin(), 1, 5).unwrap();
    c.update_floating_rate(&at(NOW, admin()), admin(), 1, 900).unwrap();
    c.switch_rate_model(&at(NOW, borrower()), borrower(), 1).unwrap();
    c.mark_defaulted(&at(NOW, admin()), admin(), 1).unwrap();
    let after = c.get_loan(1).unwrap();
    assert_eq!(after.id, before.id);
    assert_eq!(after.borrower, before.borrower);
    assert_eq!(after.amount, before.amount);
    assert_eq!(after.duration_days, before.duration_days);
    assert_eq!(after.created_at, before.created_at);
    assert_eq!(after.due_at, before.due_at);
    assert_eq!(after.platform_fee, before.platform_fee);
    assert_eq!(after.collateral_asset, before.collateral_asset);
    assert_eq!(after.collateral_amount, before.collateral_amount);
    assert_eq!(after.base_rate_bps, before.base_rate_bps);
}

#[test]
fn a_call_needs_no_entries_but_its_own() {
    let mut whole = active(3);
    whole.record_payment(&at(NOW, admin()), admin(), 2, 40).unwrap();
    let mut part = LendingContract::new(account(0));
    part.admin = whole.admin;
    part.loan_count = whole.loan_count;
    part.loans.set(2, whole.get_loan(2).unwrap());
    part.payment_counts.set(2, whole.get_payment_count(2));
    let call = at(NOW + 1, admin());
    assert_eq!(
        whole.record_payment(&call, admin(), 2, 60),
        part.record_payment(&call, admin(), 2, 60)
    );
    assert_eq!(whole.get_loan(2), part.get_loan(2));
    assert_eq!(whole.get_payment_count(2), part.get_payment_count(2));
    assert_eq!(whole.get_payment(2, 2), part.get_payment(2, 2));
    assert_eq!(whole.events.last(), part.events.last());
}

#[test]
fn events_are_appended_one_by_one() {
    let mut c = active(1);
    assert_eq!(c.events.len(), 3);
    c.record_payment(&at(NOW, admin()), admin(), 1, 5).unwrap();
    assert_eq!(c.events.len(), 4);
    assert_eq!(
        c.record_payment(&at(NOW, admin()), admin(), 1, 0),
        Err(LendingError::PaymentNotPositive)
    );
    assert_eq!(c.events.len(), 4);
}

#[test]
fn interest_grows_with_each_term() {
    let base = LendingContract::calculate_interest(50_000, 700, 90).unwrap();
    assert_eq!(base, 863);
    assert!(LendingContract::calculate_interest(60_000, 700, 90).unwrap() > base);
    assert!(LendingContract::calculate_interest(50_000, 800, 90).unwrap() > base);
    assert!(LendingContract::calculate_interest(50_000, 700, 91).unwrap() > base);
}

#[test]
fn thresholds_rise_with_reputation_and_fall_with_volatility() {
    let base = LendingContract::calculate_liquidation_threshold(300, 2000);
    assert_eq!(base, 6950);
    assert!(LendingContract::calculate_liquidation_threshold(301, 2000) >= base);
    assert!(LendingContract::calculate_liquidation_threshold(400, 2000) > base);
    assert!(LendingContract::calculate_liquidation_threshold(300, 2100) < base);
}
