//! Fixed and floating rates of active loans.
use crate::errors::LendingError;
use crate::math;
use crate::math::SECONDS_PER_DAY;
use crate::model;
use crate::state::{Env, LendingContract, RATE_SWITCH_COOLDOWN_SECS, RATE_SWITCH_FEE_BPS};
use crate::types::{Address, Event, InterestRateModel, LoanStatus};
use vstd::prelude::*;

verus! {

impl LendingContract {
    /// The borrower switches a loan between fixed and floating rate, for a
    /// fee of 0.5 % of the remaining debt and at most once in 24 hours.
    pub fn switch_rate_model(&mut self, env: &Env, borrower: Address, loan_id: u32) -> (result: Result<
        (),
        LendingError,
    >)
        ensures
            model::outcome(
                model::switch_rate_model_refusal(old(self)@, env@, borrower, loan_id),
                old(self)@,
                (),
                model::switch_rate_model_effect(old(self)@, env@, loan_id),
                result,
                final(self)@,
            ),
    {
        if !env.authorized_by(&borrower) {
            return Err(LendingError::MissingAuthorisation);
        }
        let mut loan = match self.get_loan(loan_id) {
            Ok(loan) => loan,
            Err(error) => return Err(error),
        };
        if loan.borrower != borrower {
            return Err(LendingError::CallerNotBorrower);
        }
        if loan.status != LoanStatus::Active {
            return Err(LendingError::SwitchNotActive);
        }
        let now: u64 = env.timestamp;
        if let Some(last_switch) = self.rate_switch_cooldowns.get(&loan_id) {
            if now.saturating_sub(*last_switch) < RATE_SWITCH_COOLDOWN_SECS {
                return Err(LendingError::SwitchCooldown);
            }
        }
        let fee = match math::checked_bps_of(loan.remaining_due, RATE_SWITCH_FEE_BPS) {
            Some(fee) => fee,
            None => return Err(LendingError::SwitchFeeOverflow),
        };
        loan.remaining_due = match loan.remaining_due.checked_add(fee) {
            Some(remaining_due) => remaining_due,
            None => return Err(LendingError::SwitchRemainingOverflow),
        };
        loan.total_due = match loan.total_due.checked_add(fee) {
            Some(total_due) => total_due,
            None => return Err(LendingError::SwitchTotalOverflow),
        };
        loan.rate_model = match loan.rate_model {
            InterestRateModel::Fixed => InterestRateModel::Floating,
            InterestRateModel::Floating => InterestRateModel::Fixed,
        };
        loan.last_rate_update = now;
        self.rate_switch_cooldowns.set(loan_id, now);
        let event = Event::RateModelSwitched { loan_id, rate_model: loan.rate_model, fee };
        self.put_loan(loan_id, loan, event);
        assert(self@ =~= model::switch_rate_model_effect(old(self)@, env@, loan_id));
        Ok(())
    }

    /// The admin sets the rate of a floating-rate loan. The interest is
    /// computed anew over the days that are left; what was paid stays paid.
    pub fn update_floating_rate(
        &mut self,
        env: &Env,
        caller: Address,
        loan_id: u32,
        new_rate_bps: u32,
    ) -> (result: Result<(), LendingError>)
        ensures
            model::outcome(
                model::update_floating_rate_refusal(
                    old(self)@,
                    env@,
                    caller,
                    loan_id,
                    new_rate_bps,
                ),
                old(self)@,
                (),
                model::update_floating_rate_effect(old(self)@, env@, loan_id, new_rate_bps),
                result,
                final(self)@,
            ),
    {
        if let Some(error) = self.assert_admin(env, &caller) {
            return Err(error);
        }
        let mut loan = match self.get_loan(loan_id) {
            Ok(loan) => loan,
            Err(error) => return Err(error),
        };
        if loan.rate_model != InterestRateModel::Floating {
            return Err(LendingError::RateNotFloating);
        }
        if loan.status != LoanStatus::Active {
            return Err(LendingError::RateUpdateNotActive);
        }
        let now: u64 = env.timestamp;
        let remaining_secs: u64 = if loan.due_at > now {
            loan.due_at - now
        } else {
            0
        };
        let remaining_days: u32 = (remaining_secs / SECONDS_PER_DAY % 0x1_0000_0000) as u32;
        let paid_so_far = match loan.total_due.checked_sub(loan.remaining_due) {
            Some(paid_so_far) => paid_so_far,
            None => return Err(LendingError::PaidAmountOverflow),
        };
        let remaining_principal: i128 = if loan.remaining_due > 0 {
            loan.amount
        } else {
            0
        };
        let new_interest = match Self::calculate_interest(
            remaining_principal,
            new_rate_bps,
            remaining_days,
        ) {
            Ok(new_interest) => new_interest,
            Err(error) => return Err(error),
        };
        let new_total_due = match loan.amount.checked_add(new_interest) {
            Some(new_total_due) => new_total_due,
            None => return Err(LendingError::RecomputedTotalOverflow),
        };
        let new_remaining_due = match new_total_due.checked_sub(paid_so_far) {
            Some(new_remaining_due) => new_remaining_due,
            None => return Err(LendingError::RemainingDueUnderflow),
        };
        loan.total_due = new_total_due;
        loan.remaining_due = new_remaining_due;
        loan.interest_rate_bps = new_rate_bps;
        loan.last_rate_update = now;
        let event = Event::RateUpdated {
            loan_id,
            new_rate_bps,
            remaining_due: loan.remaining_due,
        };
        self.put_loan(loan_id, loan, event);
        Ok(())
    }
}

} // verus!
