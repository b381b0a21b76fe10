//! The lifecycle of a loan, from request to repayment or default.
use crate::entries::Entries;
use crate::errors::LendingError;
use crate::math;
use crate::math::SECONDS_PER_DAY;
use crate::model;
use crate::model::LoanRequest;
use crate::state;
use crate::state::{Env, LendingContract, MAX_DURATION_DAYS, REVOCATION_WINDOW_SECS};
use crate::types::{
    Address, DataKey, Event, InterestRateModel, LoanRecord, LoanStatus, PaymentRecord,
};
use vstd::prelude::*;

verus! {

/// Appends a loan id to the list under an address.
fn push_loan_id(lists: &mut Entries<Address, Vec<u32>>, address: &Address, loan_id: u32)
    ensures
        state::id_lists(final(lists)@) == state::id_lists(old(lists)@).insert(
            *address,
            state::ids_of(state::id_lists(old(lists)@), *address).push(loan_id),
        ),
{
    let mut ids: Vec<u32> = match lists.get(address) {
        Some(ids) => ids.clone(),
        None => Vec::new(),
    };
    assert(ids@ =~= state::ids_of(state::id_lists(lists@), *address));
    ids.push(loan_id);
    lists.set(*address, ids);
    assert(state::id_lists(lists@) =~= state::id_lists(old(lists)@).insert(
        *address,
        state::ids_of(state::id_lists(old(lists)@), *address).push(loan_id),
    ));
}

impl LendingContract {
    /// Tracks a loan in the list of its borrower.
    fn push_loan_id_for_borrower(&mut self, borrower: &Address, loan_id: u32)
        ensures
            final(self)@ == (state::State {
                borrower_loans: old(self)@.borrower_loans.insert(
                    *borrower,
                    state::ids_of(old(self)@.borrower_loans, *borrower).push(loan_id),
                ),
                ..old(self)@
            }),
    {
        push_loan_id(&mut self.borrower_loans, borrower, loan_id);
    }

    /// Tracks a loan in the list of a lender that approved it.
    fn push_loan_id_for_lender(&mut self, lender: &Address, loan_id: u32)
        ensures
            final(self)@ == (state::State {
                lender_loans: old(self)@.lender_loans.insert(
                    *lender,
                    state::ids_of(old(self)@.lender_loans, *lender).push(loan_id),
                ),
                ..old(self)@
            }),
    {
        push_loan_id(&mut self.lender_loans, lender, loan_id);
    }

    /// Stores a loan and publishes an event about it.
    pub(crate) fn put_loan(&mut self, loan_id: u32, loan: LoanRecord, event: Event)
        ensures
            final(self)@ == model::with_loan(old(self)@, loan_id, loan, event),
    {
        self.loans.set(loan_id, loan);
        self.events.push(event);
        assert(self@ =~= model::with_loan(old(self)@, loan_id, loan, event));
    }

    /// A borrower asks for a loan. The id of the new loan is returned.
    ///
    /// `interest_rate_bps` and `max_loan_amount` come from the borrower's
    /// reputation, which is looked up before the call.
    pub fn create_loan_request(
        &mut self,
        env: &Env,
        borrower: Address,
        amount: i128,
        duration_days: u32,
        interest_rate_bps: u32,
        max_loan_amount: i128,
        collateral_asset: Address,
        collateral_amount: i128,
        rate_model: InterestRateModel,
    ) -> (result: Result<u32, LendingError>)
        ensures
            ({
                let request = LoanRequest {
                    borrower,
                    amount,
                    duration_days,
                    interest_rate_bps,
                    max_loan_amount,
                    collateral_asset,
                    collateral_amount,
                    rate_model,
                };
                model::outcome(
                    model::create_loan_request_refusal(old(self)@, env@, request),
                    old(self)@,
                    model::next_loan_id(old(self)@),
                    model::create_loan_request_effect(old(self)@, env@, request),
                    result,
                    final(self)@,
                )
            }),
    {
        let ghost request = LoanRequest {
            borrower,
            amount,
            duration_days,
            interest_rate_bps,
            max_loan_amount,
            collateral_asset,
            collateral_amount,
            rate_model,
        };
        if !env.authorized_by(&borrower) {
            return Err(LendingError::MissingAuthorisation);
        }
        if amount <= 0 {
            return Err(LendingError::LoanAmountNotPositive);
        }
        if amount > max_loan_amount {
            return Err(LendingError::AmountExceedsLimit);
        }
        if duration_days == 0 || duration_days > MAX_DURATION_DAYS {
            return Err(LendingError::DurationOutOfRange);
        }
        if collateral_amount <= 0 {
            return Err(LendingError::CollateralNotPositive);
        }
        if !self.has(&DataKey::WhitelistedAsset(collateral_asset)) {
            return Err(LendingError::CollateralNotWhitelisted);
        }
        let interest = match Self::calculate_interest(amount, interest_rate_bps, duration_days) {
            Ok(interest) => interest,
            Err(error) => return Err(error),
        };
        let platform_fee = match math::checked_bps_of(interest, self.get_platform_fee_bps()) {
            Some(platform_fee) => platform_fee,
            None => return Err(LendingError::PlatformFeeOverflow),
        };
        let total_due = match amount.checked_add(interest) {
            Some(total_due) => total_due,
            None => return Err(LendingError::TotalDueOverflow),
        };
        let loan_id = match self.get_loan_count().checked_add(1) {
            Some(loan_id) => loan_id,
            None => return Err(LendingError::LoanCountOverflow),
        };
        let now: u64 = env.timestamp;
        let duration_secs: u64 = duration_days as u64 * SECONDS_PER_DAY;
        let due_at = match now.checked_add(duration_secs) {
            Some(due_at) => due_at,
            None => return Err(LendingError::DueDateOverflow),
        };
        let loan = LoanRecord {
            id: loan_id,
            borrower,
            lender: self.address,
            amount,
            duration_days,
            interest_rate_bps,
            total_due,
            remaining_due: total_due,
            created_at: now,
            due_at,
            status: LoanStatus::Pending,
            escrow_id: 0,
            platform_fee,
            collateral_asset,
            collateral_amount,
            rate_model,
            base_rate_bps: interest_rate_bps,
            last_rate_update: now,
        };
        assert(loan == model::new_loan(self@, env@, request));
        let event = Event::LoanRequested {
            loan_id,
            borrower,
            amount,
            duration_days,
            interest_rate_bps,
            total_due,
            due_at,
        };
        self.put_loan(loan_id, loan, event);
        self.loan_count = Some(loan_id);
        self.push_loan_id_for_borrower(&borrower, loan_id);
        assert(self@ =~= model::create_loan_request_effect(old(self)@, env@, request));
        Ok(loan_id)
    }

    /// A lender approves a pending loan.
    pub fn approve_loan(&mut self, env: &Env, lender: Address, loan_id: u32, escrow_id: u32) -> (result:
        Result<(), LendingError>)
        ensures
            model::outcome(
                model::approve_loan_refusal(old(self)@, env@, lender, loan_id),
                old(self)@,
                (),
                model::approve_loan_effect(old(self)@, env@, lender, loan_id, escrow_id),
                result,
                final(self)@,
            ),
    {
        if !env.authorized_by(&lender) {
            return Err(LendingError::MissingAuthorisation);
        }
        let mut loan = match self.get_loan(loan_id) {
            Ok(loan) => loan,
            Err(error) => return Err(error),
        };
        if loan.status != LoanStatus::Pending {
            return Err(LendingError::LoanNotPending);
        }
        loan.lender = lender;
        loan.escrow_id = escrow_id;
        loan.status = LoanStatus::Approved;
        self.put_loan(loan_id, loan, Event::LoanApproved { loan_id, lender, escrow_id });
        self.approved_at.set(loan_id, env.timestamp);
        self.push_loan_id_for_lender(&lender, loan_id);
        assert(self@ =~= model::approve_loan_effect(
            old(self)@,
            env@,
            lender,
            loan_id,
            escrow_id,
        ));
        Ok(())
    }

    /// The lender takes an approval back, within the 1-hour escrow window. The
    /// hold in escrow is revoked separately.
    pub fn revoke_approval(&mut self, env: &Env, lender: Address, loan_id: u32) -> (result: Result<
        (),
        LendingError,
    >)
        ensures
            model::outcome(
                model::revoke_approval_refusal(old(self)@, env@, lender, loan_id),
                old(self)@,
                (),
                model::revoke_approval_effect(old(self)@, loan_id),
                result,
                final(self)@,
            ),
    {
        if !env.authorized_by(&lender) {
            return Err(LendingError::MissingAuthorisation);
        }
        let mut loan = match self.get_loan(loan_id) {
            Ok(loan) => loan,
            Err(error) => return Err(error),
        };
        if loan.lender != lender {
            return Err(LendingError::CallerNotLender);
        }
        if loan.status != LoanStatus::Approved {
            return Err(LendingError::LoanNotApproved);
        }
        if let Some(approved_at) = self.approved_at.get(&loan_id) {
            if env.timestamp.saturating_sub(*approved_at) > REVOCATION_WINDOW_SECS {
                return Err(LendingError::RevocationWindowClosed);
            }
        }
        loan.status = LoanStatus::Pending;
        loan.lender = self.address;
        loan.escrow_id = 0;
        self.put_loan(loan_id, loan, Event::ApprovalRevoked { loan_id });
        Ok(())
    }

    /// The admin activates an approved loan, once escrow has paid it out.
    pub fn activate_loan(&mut self, env: &Env, caller: Address, loan_id: u32) -> (result: Result<
        (),
        LendingError,
    >)
        ensures
            model::outcome(
                model::activate_loan_refusal(old(self)@, env@, caller, loan_id),
                old(self)@,
                (),
                model::activate_loan_effect(old(self)@, loan_id),
                result,
                final(self)@,
            ),
    {
        if let Some(error) = self.assert_admin(env, &caller) {
            return Err(error);
        }
        let mut loan = match self.get_loan(loan_id) {
            Ok(loan) => loan,
            Err(error) => return Err(error),
        };
        if loan.status != LoanStatus::Approved {
            return Err(LendingError::ActivationNotApproved);
        }
        loan.status = LoanStatus::Active;
        self.put_loan(loan_id, loan, Event::LoanActivated { loan_id });
        Ok(())
    }

    /// The admin records a partial or full repayment, after the funds have
    /// moved. The new status of the loan is returned.
    pub fn record_payment(&mut self, env: &Env, caller: Address, loan_id: u32, amount: i128) -> (result:
        Result<LoanStatus, LendingError>)
        ensures
            model::outcome(
                model::record_payment_refusal(old(self)@, env@, caller, loan_id, amount),
                old(self)@,
                model::paid_loan(old(self)@.loans[loan_id], amount).status,
                model::record_payment_effect(old(self)@, env@, loan_id, amount),
                result,
                final(self)@,
            ),
    {
        if let Some(error) = self.assert_admin(env, &caller) {
            return Err(error);
        }
        let mut loan = match self.get_loan(loan_id) {
            Ok(loan) => loan,
            Err(error) => return Err(error),
        };
        if loan.status != LoanStatus::Active {
            return Err(LendingError::LoanNotActive);
        }
        if amount <= 0 {
            return Err(LendingError::PaymentNotPositive);
        }
        let index = match self.get_payment_count(loan_id).checked_add(1) {
            Some(index) => index,
            None => return Err(LendingError::PaymentCountOverflow),
        };
        let payment = PaymentRecord { loan_id, amount, paid_at: env.timestamp };
        self.payments.set((loan_id, index), payment);
        self.payment_counts.set(loan_id, index);
        if amount >= loan.remaining_due {
            loan.remaining_due = 0;
            loan.status = LoanStatus::Repaid;
        } else {
            loan.remaining_due = loan.remaining_due - amount;
        }
        let event = Event::PaymentRecorded {
            loan_id,
            amount,
            remaining_due: loan.remaining_due,
            status: loan.status,
        };
        self.put_loan(loan_id, loan, event);
        assert(self@ =~= model::record_payment_effect(old(self)@, env@, loan_id, amount));
        Ok(loan.status)
    }

    /// The admin marks an active loan as defaulted.
    pub fn mark_defaulted(&mut self, env: &Env, caller: Address, loan_id: u32) -> (result: Result<
        (),
        LendingError,
    >)
        ensures
            model::outcome(
                model::mark_defaulted_refusal(old(self)@, env@, caller, loan_id),
                old(self)@,
                (),
                model::mark_defaulted_effect(old(self)@, loan_id),
                result,
                final(self)@,
            ),
    {
        if let Some(error) = self.assert_admin(env, &caller) {
            return Err(error);
        }
        let mut loan = match self.get_loan(loan_id) {
            Ok(loan) => loan,
            Err(error) => return Err(error),
        };
        if loan.status != LoanStatus::Active {
            return Err(LendingError::DefaultNotActive);
        }
        loan.status = LoanStatus::Defaulted;
        self.put_loan(loan_id, loan, Event::LoanDefaulted { loan_id });
        Ok(())
    }
}

} // verus!
