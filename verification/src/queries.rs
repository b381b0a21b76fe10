//! What callers can ask of the contract.
use crate::errors::LendingError;
use crate::math::SECONDS_PER_DAY;
use crate::state::{
    Env, LendingContract, DEFAULT_FLASH_LOAN_FEE_BPS, DEFAULT_PLATFORM_FEE_BPS,
};
use crate::types::{Address, DataKey, LoanRecord, LoanStatus, PaymentRecord};
use vstd::prelude::*;

verus! {

/// An active loan is overdue once its deadline has passed.
pub open spec fn overdue(loan: LoanRecord, now: u64) -> bool {
    loan.status == LoanStatus::Active && now > loan.due_at
}

/// Whole days since the deadline of an overdue loan, 0 of any other.
pub open spec fn days_past_due(loan: LoanRecord, now: u64) -> int {
    if overdue(loan, now) {
        (now - loan.due_at) / SECONDS_PER_DAY as int
    } else {
        0
    }
}

impl LendingContract {
    pub fn get_admin(&self) -> (result: Result<Address, LendingError>)
        ensures
            result == (match self@.admin {
                Some(admin) => Ok::<Address, LendingError>(admin),
                None => Err(LendingError::NotInitialised),
            }),
    {
        match self.admin {
            Some(admin) => Ok(admin),
            None => Err(LendingError::NotInitialised),
        }
    }

    pub fn get_multisig_admin(&self) -> (result: Result<Address, LendingError>)
        ensures
            result == (match self@.multisig_admin {
                Some(multisig) => Ok::<Address, LendingError>(multisig),
                None => Err(LendingError::MultisigNotConfigured),
            }),
    {
        match self.multisig_admin {
            Some(multisig) => Ok(multisig),
            None => Err(LendingError::MultisigNotConfigured),
        }
    }

    pub fn get_governance(&self) -> (result: Result<Address, LendingError>)
        ensures
            result == (match self@.governance {
                Some(governance) => Ok::<Address, LendingError>(governance),
                None => Err(LendingError::GovernanceNotConfigured),
            }),
    {
        match self.governance {
            Some(governance) => Ok(governance),
            None => Err(LendingError::GovernanceNotConfigured),
        }
    }

    /// Check whether an asset is whitelisted as collateral.
    pub fn is_asset_whitelisted(&self, asset: Address) -> (r: bool)
        ensures
            r == self@.whitelisted_assets.contains_key(asset),
    {
        self.has(&DataKey::WhitelistedAsset(asset))
    }

    /// Platform fee in force, in basis points of interest.
    pub fn get_platform_fee_bps(&self) -> (fee_bps: u32)
        ensures
            fee_bps == self@.platform_fee(),
    {
        match self.platform_fee_bps {
            Some(fee_bps) => fee_bps,
            None => DEFAULT_PLATFORM_FEE_BPS,
        }
    }

    /// Flash-loan fee in force, in basis points of the borrowed amount.
    pub fn get_flash_loan_fee_bps(&self) -> (fee_bps: u32)
        ensures
            fee_bps == self@.flash_loan_fee(),
    {
        match self.flash_loan_fee_bps {
            Some(fee_bps) => fee_bps,
            None => DEFAULT_FLASH_LOAN_FEE_BPS,
        }
    }

    pub fn get_loan(&self, loan_id: u32) -> (result: Result<LoanRecord, LendingError>)
        ensures
            result == (if self@.loans.contains_key(loan_id) {
                Ok::<LoanRecord, LendingError>(self@.loans[loan_id])
            } else {
                Err(LendingError::LoanNotFound)
            }),
    {
        match self.loans.get(&loan_id) {
            Some(loan) => Ok(*loan),
            None => Err(LendingError::LoanNotFound),
        }
    }

    pub fn get_loan_count(&self) -> (count: u32)
        ensures
            count == self@.count(),
    {
        match self.loan_count {
            Some(count) => count,
            None => 0,
        }
    }

    /// Check whether a loan is overdue.
    pub fn is_overdue(&self, env: &Env, loan_id: u32) -> (result: Result<bool, LendingError>)
        ensures
            result == (if self@.loans.contains_key(loan_id) {
                Ok::<bool, LendingError>(overdue(self@.loans[loan_id], env@.timestamp))
            } else {
                Err(LendingError::LoanNotFound)
            }),
    {
        match self.get_loan(loan_id) {
            Ok(loan) => Ok(loan.status == LoanStatus::Active && env.timestamp > loan.due_at),
            Err(error) => Err(error),
        }
    }

    /// Whole days overdue, 0 if the loan is not overdue.
    pub fn days_overdue(&self, env: &Env, loan_id: u32) -> (result: Result<u64, LendingError>)
        ensures
            !self@.loans.contains_key(loan_id) ==> result == Err::<u64, LendingError>(
                LendingError::LoanNotFound,
            ),
            self@.loans.contains_key(loan_id) ==> result is Ok && result->Ok_0 == days_past_due(
                self@.loans[loan_id],
                env@.timestamp,
            ),
    {
        match self.get_loan(loan_id) {
            Ok(loan) => {
                if loan.status == LoanStatus::Active && env.timestamp > loan.due_at {
                    Ok((env.timestamp - loan.due_at) / SECONDS_PER_DAY)
                } else {
                    Ok(0)
                }
            },
            Err(error) => Err(error),
        }
    }

    pub fn get_payment_count(&self, loan_id: u32) -> (count: u32)
        ensures
            count == self@.payment_count(loan_id),
    {
        match self.payment_counts.get(&loan_id) {
            Some(count) => *count,
            None => 0,
        }
    }

    pub fn get_payment(&self, loan_id: u32, payment_index: u32) -> (result: Result<
        PaymentRecord,
        LendingError,
    >)
        ensures
            result == (if self@.payments.contains_key((loan_id, payment_index)) {
                Ok::<PaymentRecord, LendingError>(self@.payments[(loan_id, payment_index)])
            } else {
                Err(LendingError::PaymentNotFound)
            }),
    {
        match self.payments.get(&(loan_id, payment_index)) {
            Some(payment) => Ok(*payment),
            None => Err(LendingError::PaymentNotFound),
        }
    }
}

} // verus!
