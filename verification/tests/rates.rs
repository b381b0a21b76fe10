//! Rate models, interest and thresholds.
use lending::state::{Env, LendingContract};
use lending::types::{Address, DataKey, Event, InterestRateModel, LoanStatus};
use lending::LendingError;

const DAY: u64 = 86_400;
const NOW: u64 = 1_700_000_000;

fn account(n: u8) -> Address {
    let mut strkey = [b'A'; 56];
    strkey[0] = b'G';
    strkey[55] = n;
    Address { strkey }
}

fn admin() -> Address {
    account(1)
}

fn borrower() -> Address {
    account(2)
}

fn at(timestamp: u64, who: Address) -> Env {
    Env { timestamp, authorizers: vec![who] }
}

/// An active loan of 100 000 at 10 % for 100 days: 2739 interest.
fn active(model: InterestRateModel) -> LendingContract {
    let mut c = LendingContract::new(account(0));
    c.initialize(admin()).unwrap();
    c.create_loan_request(
        &at(NOW, borrower()),
        borrower(),
        100_000,
        100,
        1000,
        100_000,
        admin(),
        1,
        model,
    )
    .unwrap();
    c.approve_loan(&at(NOW, account(3)), account(3), 1, 1).unwrap();
    c.activate_loan(&at(NOW, admin()), admin(), 1).unwrap();
    c
}

#[test]
fn interest_is_simple_and_rounds_toward_zero() {
    assert_eq!(LendingContract::calculate_interest(10_000, 1200, 365), Ok(1200));
    assert_eq!(LendingContract::calculate_interest(100_000, 1000, 100), Ok(2739));
    assert_eq!(LendingContract::calculate_interest(0, 1000, 100), Ok(0));
    assert_eq!(LendingContract::calculate_interest(100, 0, 100), Ok(0));
    assert_eq!(LendingContract::calculate_interest(100, 1000, 0), Ok(0));
    assert_eq!(LendingContract::calculate_interest(-100_000, 1000, 100), Ok(-2739));
    assert_eq!(LendingContract::calculate_interest(3_649_999, 1, 1), Ok(0));
    assert_eq!(LendingContract::calculate_interest(3_650_000, 1, 1), Ok(1));
    assert_eq!(
        LendingContract::calculate_interest(i128::MAX, 2, 1),
        Err(LendingError::InterestRateOverflow)
    );
    assert_eq!(
        LendingContract::calculate_interest(i128::MIN, 2, 1),
        Err(LendingError::InterestRateOverflow)
    );
    assert_eq!(
        LendingContract::calculate_interest(i128::MAX, 1, 2),
        Err(LendingError::InterestDaysOverflow)
    );
    assert_eq!(
        LendingContract::calculate_interest(i128::MAX, 1, 1),
        Ok(i128::MAX / 3_650_000)
    );
}

#[test]
fn thresholds_weigh_reputation_and_volatility() {
    assert_eq!(LendingContract::calculate_liquidation_threshold(0, 0), 7500);
    assert_eq!(LendingContract::calculate_liquidation_threshold(500, 1000), 7750);
    assert_eq!(LendingContract::calculate_liquidation_threshold(333, 0), 7999);
    assert_eq!(LendingContract::calculate_liquidation_threshold(1000, 0), 9000);
    assert_eq!(LendingContract::calculate_liquidation_threshold(0, 3), 7499);
    assert_eq!(LendingContract::calculate_liquidation_threshold(0, 5000), 5000);
    assert_eq!(LendingContract::calculate_liquidation_threshold(0, u32::MAX), 5000);
    assert_eq!(LendingContract::calculate_liquidation_threshold(u32::MAX, 0), 9000);
}

#[test]
fn the_reputation_bonus_is_at_most_1500() {
    assert_eq!(LendingContract::calculate_liquidation_threshold(1000, 4000), 7000);
    assert_eq!(LendingContract::calculate_liquidation_threshold(2000, 4000), 7000);
    assert_eq!(LendingContract::calculate_liquidation_threshold(u32::MAX, u32::MAX), 5000);
}

#[test]
fn switching_charges_half_a_percent_of_what_remains() {
    let mut c = active(InterestRateModel::Fixed);
    c.record_payment(&at(NOW, admin()), admin(), 1, 2_739).unwrap();
    assert!(!c.has(&DataKey::RateSwitchCooldown(1)));
    assert_eq!(c.switch_rate_model(&at(NOW + 9, borrower()), borrower(), 1), Ok(()));
    let loan = c.get_loan(1).unwrap();
    assert_eq!(loan.rate_model, InterestRateModel::Floating);
    assert_eq!(loan.remaining_due, 100_500);
    assert_eq!(loan.total_due, 103_239);
    assert_eq!(loan.last_rate_update, NOW + 9);
    assert!(c.has(&DataKey::RateSwitchCooldown(1)));
    assert_eq!(
        c.events[4],
        Event::RateModelSwitched {
            loan_id: 1,
            rate_model: InterestRateModel::Floating,
            fee: 500,
        }
    );
    assert_eq!(c.events[4].topics(), ("loan", "rswitch"));
}

#[test]
fn switches_are_a_day_apart() {
    let mut c = active(InterestRateModel::Floating);
    c.switch_rate_model(&at(NOW, borrower()), borrower(), 1).unwrap();
    assert_eq!(
        c.switch_rate_model(&at(NOW + DAY - 1, borrower()), borrower(), 1),
        Err(LendingError::SwitchCooldown)
    );
    assert_eq!(
        c.switch_rate_model(&at(NOW - 5, borrower()), borrower(), 1),
        Err(LendingError::SwitchCooldown)
    );
    assert_eq!(c.get_loan(1).unwrap().rate_model, InterestRateModel::Fixed);
    assert_eq!(c.switch_rate_model(&at(NOW + DAY, borrower()), borrower(), 1), Ok(()));
    assert_eq!(c.get_loan(1).unwrap().rate_model, InterestRateModel::Floating);
    assert_eq!(
        c.switch_rate_model(&at(NOW + DAY + 1, borrower()), borrower(), 1),
        Err(LendingError::SwitchCooldown)
    );
}

#[test]
fn bad_switches_are_refused() {
    let mut c = active(InterestRateModel::Fixed);
    assert_eq!(
        c.switch_rate_model(&at(NOW, admin()), borrower(), 1),
        Err(LendingError::MissingAuthorisation)
    );
    assert_eq!(
        c.switch_rate_model(&at(NOW, borrower()), borrower(), 2),
        Err(LendingError::LoanNotFound)
    );
    assert_eq!(
        c.switch_rate_model(&at(NOW, admin()), admin(), 1),
        Err(LendingError::CallerNotBorrower)
    );
    let mut loan = c.get_loan(1).unwrap();
    loan.remaining_due = i128::MAX;
    c.loans.set(1, loan);
    assert_eq!(
        c.switch_rate_model(&at(NOW, borrower()), borrower(), 1),
        Err(LendingError::SwitchFeeOverflow)
    );
    loan.remaining_due = i128::MAX / 50;
    loan.total_due = i128::MAX;
    c.loans.set(1, loan);
    assert_eq!(
        c.switch_rate_model(&at(NOW, borrower()), borrower(), 1),
        Err(LendingError::SwitchTotalOverflow)
    );
    loan.status = LoanStatus::Approved;
    c.loans.set(1, loan);
    assert_eq!(
        c.switch_rate_model(&at(NOW, borrower()), borrower(), 1),
        Err(LendingError::SwitchNotActive)
    );
    assert!(!c.has(&DataKey::RateSwitchCooldown(1)));
}

#[test]
fn a_new_rate_counts_for_the_days_that_are_left() {
    let mut c = active(InterestRateModel::Floating);
    c.record_payment(&at(NOW, admin()), admin(), 1, 10_000).unwrap();
    // 50 whole days are left: 100 000 x 2000 x 50 / 3 650 000 = 2739.
    let half_way = NOW + 49 * DAY + 1;
    assert_eq!(c.update_floating_rate(&at(half_way, admin()), admin(), 1, 2000), Ok(()));
    let loan = c.get_loan(1).unwrap();
    assert_eq!(loan.total_due, 102_739);
    assert_eq!(loan.remaining_due, 92_739);
    assert_eq!(loan.interest_rate_bps, 2000);
    assert_eq!(loan.base_rate_bps, 1000);
    assert_eq!(loan.last_rate_update, half_way);
    assert_eq!(
        c.events[4],
        Event::RateUpdated { loan_id: 1, new_rate_bps: 2000, remaining_due: 92_739 }
    );
    assert_eq!(c.events[4].topics(), ("loan", "ratechg"));
}

#[test]
fn after_the_deadline_no_interest_is_added() {
    let mut c = active(InterestRateModel::Floating);
    assert_eq!(
        c.update_floating_rate(&at(NOW + 200 * DAY, admin()), admin(), 1, 2000),
        Ok(())
    );
    let loan = c.get_loan(1).unwrap();
    assert_eq!(loan.total_due, 100_000);
    assert_eq!(loan.remaining_due, 100_000);
}

#[test]
fn a_lower_rate_can_leave_a_credit() {
    let mut c = active(InterestRateModel::Floating);
    c.record_payment(&at(NOW, admin()), admin(), 1, 102_000).unwrap();
    c.update_floating_rate(&at(NOW + 100 * DAY, admin()), admin(), 1, 1000).unwrap();
    let loan = c.get_loan(1).unwrap();
    assert_eq!(loan.total_due, 100_000);
    assert_eq!(loan.remaining_due, -2_000);
    // The fee on a credit is negative, and rounds toward zero.
    c.switch_rate_model(&at(NOW + 100 * DAY, borrower()), borrower(), 1).unwrap();
    let loan = c.get_loan(1).unwrap();
    assert_eq!(loan.remaining_due, -2_010);
    assert_eq!(loan.total_due, 99_990);
    assert_eq!(
        c.record_payment(&at(NOW + 100 * DAY, admin()), admin(), 1, 1),
        Ok(LoanStatus::Repaid)
    );
    assert_eq!(c.get_loan(1).unwrap().remaining_due, 0);
}

#[test]
fn bad_rate_updates_are_refused() {
    let mut c = active(InterestRateModel::Fixed);
    assert_eq!(
        c.update_floating_rate(&at(NOW, borrower()), borrower(), 1, 5),
        Err(LendingError::CallerNotAdmin)
    );
    assert_eq!(
        c.update_floating_rate(&at(NOW, borrower()), admin(), 1, 5),
        Err(LendingError::MissingAuthorisation)
    );
    assert_eq!(
        c.update_floating_rate(&at(NOW, admin()), admin(), 2, 5),
        Err(LendingError::LoanNotFound)
    );
    assert_eq!(
        c.update_floating_rate(&at(NOW, admin()), admin(), 1, 5),
        Err(LendingError::RateNotFloating)
    );
    let mut c = active(InterestRateModel::Floating);
    let good = c.get_loan(1).unwrap();
    let mut loan = good;
    loan.status = LoanStatus::Approved;
    c.loans.set(1, loan);
    assert_eq!(
        c.update_floating_rate(&at(NOW, admin()), admin(), 1, 5),
        Err(LendingError::RateUpdateNotActive)
    );
    let mut loan = good;
    loan.remaining_due = i128::MIN;
    c.loans.set(1, loan);
    assert_eq!(
        c.update_floating_rate(&at(NOW, admin()), admin(), 1, 5),
        Err(LendingError::PaidAmountOverflow)
    );
    let mut loan = good;
    loan.amount = i128::MAX;
    c.loans.set(1, loan);
    assert_eq!(
        c.update_floating_rate(&at(NOW, admin()), admin(), 1, 2),
        Err(LendingError::InterestRateOverflow)
    );
    assert_eq!(
        c.update_floating_rate(&at(NOW, admin()), admin(), 1, 1),
        Err(LendingError::InterestDaysOverflow)
    );
    assert_eq!(
        c.update_floating_rate(&at(NOW + 99 * DAY, admin()), admin(), 1, 1),
        Err(LendingError::RecomputedTotalOverflow)
    );
    let mut loan = good;
    loan.total_due = -10;
    loan.remaining_due = i128::MAX - 10;
    c.loans.set(1, loan);
    assert_eq!(
        c.update_floating_rate(&at(NOW, admin()), admin(), 1, 1000),
        Err(LendingError::RemainingDueUnderflow)
    );
}
