//! The reasons for which the contract refuses a call.
use vstd::prelude::*;

verus! {

/// Why a call was refused. A refused call changes nothing.
#[derive(Clone, Copy, Debug, PartialEq, Eq, Structural)]
pub enum LendingError {
    /// The address that the call speaks for did not authorise it.
    MissingAuthorisation,
    AlreadyInitialised,
    NotInitialised,
    MultisigAlreadyConfigured,
    MultisigNotConfigured,
    GovernanceAlreadyConfigured,
    GovernanceNotConfigured,
    CallerNotAdmin,
    CallerNotMultisig,
    CallerNotGovernance,
    PlatformFeeTooHigh,
    FlashLoanFeeTooHigh,
    FlashLoanAmountNotPositive,
    InsufficientLiquidity,
    FlashLoanFeeOverflow,
    RequiredBalanceOverflow,
    FlashLoanNotRepaid,
    /// A flash loan was handed a reply that its stage does not wait for.
    UnexpectedReply,
    LoanAmountNotPositive,
    AmountExceedsLimit,
    DurationOutOfRange,
    CollateralNotPositive,
    CollateralNotWhitelisted,
    InterestRateOverflow,
    InterestDaysOverflow,
    PlatformFeeOverflow,
    TotalDueOverflow,
    LoanCountOverflow,
    DueDateOverflow,
    LoanNotFound,
    LoanNotPending,
    CallerNotLender,
    LoanNotApproved,
    RevocationWindowClosed,
    ActivationNotApproved,
    LoanNotActive,
    PaymentNotPositive,
    PaymentCountOverflow,
    DefaultNotActive,
    CallerNotBorrower,
    SwitchNotActive,
    SwitchCooldown,
    SwitchFeeOverflow,
    SwitchRemainingOverflow,
    SwitchTotalOverflow,
    RateNotFloating,
    RateUpdateNotActive,
    PaidAmountOverflow,
    RecomputedTotalOverflow,
    RemainingDueUnderflow,
    PaymentNotFound,
}

impl LendingError {
    /// The sentence that callers see.
    pub open spec fn spec_message(self) -> Seq<char> {
        match self {
            LendingError::MissingAuthorisation => "Unauthorised: the caller did not authorise the call"@,
            LendingError::AlreadyInitialised => "Contract already initialised"@,
            LendingError::NotInitialised => "Contract not initialised"@,
            LendingError::MultisigAlreadyConfigured => "Multisig admin already configured"@,
            LendingError::MultisigNotConfigured => "Multisig admin not configured"@,
            LendingError::GovernanceAlreadyConfigured => "Governance already configured"@,
            LendingError::GovernanceNotConfigured => "Governance not configured"@,
            LendingError::CallerNotAdmin => "Unauthorised: caller is not admin"@,
            LendingError::CallerNotMultisig => "Unauthorised: caller is not the multisig admin"@,
            LendingError::CallerNotGovernance => "Unauthorised: only Governance can change the platform fee"@,
            LendingError::PlatformFeeTooHigh => "Fee exceeds MAX_PLATFORM_FEE_BPS"@,
            LendingError::FlashLoanFeeTooHigh => "Fee exceeds MAX_FLASH_LOAN_FEE_BPS"@,
            LendingError::FlashLoanAmountNotPositive => "Flash loan amount must be positive"@,
            LendingError::InsufficientLiquidity => "Insufficient pool liquidity for flash loan"@,
            LendingError::FlashLoanFeeOverflow => "Overflow computing flash loan fee"@,
            LendingError::RequiredBalanceOverflow => "Overflow computing required post-loan balance"@,
            LendingError::FlashLoanNotRepaid => "Flash loan not repaid: insufficient funds returned"@,
            LendingError::UnexpectedReply => "Unexpected reply to a flash loan step"@,
            LendingError::LoanAmountNotPositive => "Loan amount must be positive"@,
            LendingError::AmountExceedsLimit => "Amount exceeds reputation-based limit"@,
            LendingError::DurationOutOfRange => "Duration must be between 1 and 365 days"@,
            LendingError::CollateralNotPositive => "Collateral amount must be positive"@,
            LendingError::CollateralNotWhitelisted => "Collateral asset is not whitelisted"@,
            LendingError::InterestRateOverflow => "Overflow: principal × rate_bps"@,
            LendingError::InterestDaysOverflow => "Overflow: (principal × rate_bps) × days"@,
            LendingError::PlatformFeeOverflow => "Overflow: interest × fee_bps"@,
            LendingError::TotalDueOverflow => "Overflow computing total_due"@,
            LendingError::LoanCountOverflow => "Overflow computing the next loan id"@,
            LendingError::DueDateOverflow => "Overflow computing due_at timestamp"@,
            LendingError::LoanNotFound => "Loan not found"@,
            LendingError::LoanNotPending => "Loan is not in PENDING state"@,
            LendingError::CallerNotLender => "Caller is not the lender"@,
            LendingError::LoanNotApproved => "Loan is not in APPROVED state"@,
            LendingError::RevocationWindowClosed => "Revocation window has closed (1h after approval)"@,
            LendingError::ActivationNotApproved => "Loan must be APPROVED before activation"@,
            LendingError::LoanNotActive => "Loan is not ACTIVE"@,
            LendingError::PaymentNotPositive => "Payment amount must be positive"@,
            LendingError::PaymentCountOverflow => "Overflow computing the next payment index"@,
            LendingError::DefaultNotActive => "Only ACTIVE loans can be defaulted"@,
            LendingError::CallerNotBorrower => "Caller is not the borrower"@,
            LendingError::SwitchNotActive => "Can only switch rate model on ACTIVE loans"@,
            LendingError::SwitchCooldown => "Rate switch cooldown not elapsed (24h required)"@,
            LendingError::SwitchFeeOverflow => "Overflow computing switch fee"@,
            LendingError::SwitchRemainingOverflow => "Overflow adding switch fee"@,
            LendingError::SwitchTotalOverflow => "Overflow adding switch fee to total"@,
            LendingError::RateNotFloating => "Loan is not using floating rate model"@,
            LendingError::RateUpdateNotActive => "Can only update rate on ACTIVE loans"@,
            LendingError::PaidAmountOverflow => "Overflow computing the amount already paid"@,
            LendingError::RecomputedTotalOverflow => "Overflow recomputing total_due"@,
            LendingError::RemainingDueUnderflow => "Underflow computing new remaining_due"@,
            LendingError::PaymentNotFound => "Payment not found"@,
        }
    }

    /// The sentence that callers see.
    pub fn message(&self) -> (message: &'static str)
        ensures
            message@ == self.spec_message(),
            match self {
                LendingError::MissingAuthorisation => message@ == "Unauthorised: the caller did not authorise the call"@,
                LendingError::AlreadyInitialised => message@ == "Contract already initialised"@,
                LendingError::NotInitialised => message@ == "Contract not initialised"@,
                LendingError::MultisigAlreadyConfigured => message@ == "Multisig admin already configured"@,
                LendingError::MultisigNotConfigured => message@ == "Multisig admin not configured"@,
                LendingError::GovernanceAlreadyConfigured => message@ == "Governance already configured"@,
                LendingError::GovernanceNotConfigured => message@ == "Governance not configured"@,
                LendingError::CallerNotAdmin => message@ == "Unauthorised: caller is not admin"@,
                LendingError::CallerNotMultisig => message@ == "Unauthorised: caller is not the multisig admin"@,
                LendingError::CallerNotGovernance => message@ == "Unauthorised: only Governance can change the platform fee"@,
                LendingError::PlatformFeeTooHigh => message@ == "Fee exceeds MAX_PLATFORM_FEE_BPS"@,
                LendingError::FlashLoanFeeTooHigh => message@ == "Fee exceeds MAX_FLASH_LOAN_FEE_BPS"@,
                LendingError::FlashLoanAmountNotPositive => message@ == "Flash loan amount must be positive"@,
                LendingError::InsufficientLiquidity => message@ == "Insufficient pool liquidity for flash loan"@,
                LendingError::FlashLoanFeeOverflow => message@ == "Overflow computing flash loan fee"@,
                LendingError::RequiredBalanceOverflow => message@ == "Overflow computing required post-loan balance"@,
                LendingError::FlashLoanNotRepaid => message@ == "Flash loan not repaid: insufficient funds returned"@,
                LendingError::UnexpectedReply => message@ == "Unexpected reply to a flash loan step"@,
                LendingError::LoanAmountNotPositive => message@ == "Loan amount must be positive"@,
                LendingError::AmountExceedsLimit => message@ == "Amount exceeds reputation-based limit"@,
                LendingError::DurationOutOfRange => message@ == "Duration must be between 1 and 365 days"@,
                LendingError::CollateralNotPositive => message@ == "Collateral amount must be positive"@,
                LendingError::CollateralNotWhitelisted => message@ == "Collateral asset is not whitelisted"@,
                LendingError::InterestRateOverflow => message@ == "Overflow: principal × rate_bps"@,
                LendingError::InterestDaysOverflow => message@ == "Overflow: (principal × rate_bps) × days"@,
                LendingError::PlatformFeeOverflow => message@ == "Overflow: interest × fee_bps"@,
                LendingError::TotalDueOverflow => message@ == "Overflow computing total_due"@,
                LendingError::LoanCountOverflow => message@ == "Overflow computing the next loan id"@,
                LendingError::DueDateOverflow => message@ == "Overflow computing due_at timestamp"@,
                LendingError::LoanNotFound => message@ == "Loan not found"@,
                LendingError::LoanNotPending => message@ == "Loan is not in PENDING state"@,
                LendingError::CallerNotLender => message@ == "Caller is not the lender"@,
                LendingError::LoanNotApproved => message@ == "Loan is not in APPROVED state"@,
                LendingError::RevocationWindowClosed => message@ == "Revocation window has closed (1h after approval)"@,
                LendingError::ActivationNotApproved => message@ == "Loan must be APPROVED before activation"@,
                LendingError::LoanNotActive => message@ == "Loan is not ACTIVE"@,
                LendingError::PaymentNotPositive => message@ == "Payment amount must be positive"@,
                LendingError::PaymentCountOverflow => message@ == "Overflow computing the next payment index"@,
                LendingError::DefaultNotActive => message@ == "Only ACTIVE loans can be defaulted"@,
                LendingError::CallerNotBorrower => message@ == "Caller is not the borrower"@,
                LendingError::SwitchNotActive => message@ == "Can only switch rate model on ACTIVE loans"@,
                LendingError::SwitchCooldown => message@ == "Rate switch cooldown not elapsed (24h required)"@,
                LendingError::SwitchFeeOverflow => message@ == "Overflow computing switch fee"@,
                LendingError::SwitchRemainingOverflow => message@ == "Overflow adding switch fee"@,
                LendingError::SwitchTotalOverflow => message@ == "Overflow adding switch fee to total"@,
                LendingError::RateNotFloating => message@ == "Loan is not using floating rate model"@,
                LendingError::RateUpdateNotActive => message@ == "Can only update rate on ACTIVE loans"@,
                LendingError::PaidAmountOverflow => message@ == "Overflow computing the amount already paid"@,
                LendingError::RecomputedTotalOverflow => message@ == "Overflow recomputing total_due"@,
                LendingError::RemainingDueUnderflow => message@ == "Underflow computing new remaining_due"@,
                LendingError::PaymentNotFound => message@ == "Payment not found"@,
            },
    {
        match self {
            LendingError::MissingAuthorisation => "Unauthorised: the caller did not authorise the call",
            LendingError::AlreadyInitialised => "Contract already initialised",
            LendingError::NotInitialised => "Contract not initialised",
            LendingError::MultisigAlreadyConfigured => "Multisig admin already configured",
            LendingError::MultisigNotConfigured => "Multisig admin not configured",
            LendingError::GovernanceAlreadyConfigured => "Governance already configured",
            LendingError::GovernanceNotConfigured => "Governance not configured",
            LendingError::CallerNotAdmin => "Unauthorised: caller is not admin",
            LendingError::CallerNotMultisig => "Unauthorised: caller is not the multisig admin",
            LendingError::CallerNotGovernance => "Unauthorised: only Governance can change the platform fee",
            LendingError::PlatformFeeTooHigh => "Fee exceeds MAX_PLATFORM_FEE_BPS",
            LendingError::FlashLoanFeeTooHigh => "Fee exceeds MAX_FLASH_LOAN_FEE_BPS",
            LendingError::FlashLoanAmountNotPositive => "Flash loan amount must be positive",
            LendingError::InsufficientLiquidity => "Insufficient pool liquidity for flash loan",
            LendingError::FlashLoanFeeOverflow => "Overflow computing flash loan fee",
            LendingError::RequiredBalanceOverflow => "Overflow computing required post-loan balance",
            LendingError::FlashLoanNotRepaid => "Flash loan not repaid: insufficient funds returned",
            LendingError::UnexpectedReply => "Unexpected reply to a flash loan step",
            LendingError::LoanAmountNotPositive => "Loan amount must be positive",
            LendingError::AmountExceedsLimit => "Amount exceeds reputation-based limit",
            LendingError::DurationOutOfRange => "Duration must be between 1 and 365 days",
            LendingError::CollateralNotPositive => "Collateral amount must be positive",
            LendingError::CollateralNotWhitelisted => "Collateral asset is not whitelisted",
            LendingError::InterestRateOverflow => "Overflow: principal × rate_bps",
            LendingError::InterestDaysOverflow => "Overflow: (principal × rate_bps) × days",
            LendingError::PlatformFeeOverflow => "Overflow: interest × fee_bps",
            LendingError::TotalDueOverflow => "Overflow computing total_due",
            LendingError::LoanCountOverflow => "Overflow computing the next loan id",
            LendingError::DueDateOverflow => "Overflow computing due_at timestamp",
            LendingError::LoanNotFound => "Loan not found",
            LendingError::LoanNotPending => "Loan is not in PENDING state",
            LendingError::CallerNotLender => "Caller is not the lender",
            LendingError::LoanNotApproved => "Loan is not in APPROVED state",
            LendingError::RevocationWindowClosed => "Revocation window has closed (1h after approval)",
            LendingError::ActivationNotApproved => "Loan must be APPROVED before activation",
            LendingError::LoanNotActive => "Loan is not ACTIVE",
            LendingError::PaymentNotPositive => "Payment amount must be positive",
            LendingError::PaymentCountOverflow => "Overflow computing the next payment index",
            LendingError::DefaultNotActive => "Only ACTIVE loans can be defaulted",
            LendingError::CallerNotBorrower => "Caller is not the borrower",
            LendingError::SwitchNotActive => "Can only switch rate model on ACTIVE loans",
            LendingError::SwitchCooldown => "Rate switch cooldown not elapsed (24h required)",
            LendingError::SwitchFeeOverflow => "Overflow computing switch fee",
            LendingError::SwitchRemainingOverflow => "Overflow adding switch fee",
            LendingError::SwitchTotalOverflow => "Overflow adding switch fee to total",
            LendingError::RateNotFloating => "Loan is not using floating rate model",
            LendingError::RateUpdateNotActive => "Can only update rate on ACTIVE loans",
            LendingError::PaidAmountOverflow => "Overflow computing the amount already paid",
            LendingError::RecomputedTotalOverflow => "Overflow recomputing total_due",
            LendingError::RemainingDueUnderflow => "Underflow computing new remaining_due",
            LendingError::PaymentNotFound => "Payment not found",
        }
    }
}

} // verus!
