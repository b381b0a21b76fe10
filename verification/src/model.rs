//! For every call, when it is refused and what it does to the ledger.
//!
//! A call has a `.._refusal`, the first reason to refuse it, and a
//! `.._effect`, the state that it leads to when there is no such reason.
use crate::errors::LendingError;
use crate::math;
use crate::math::SECONDS_PER_DAY;
use crate::state;
use crate::state::{
    Context, State, MAX_DURATION_DAYS, MAX_FLASH_LOAN_FEE_BPS, MAX_PLATFORM_FEE_BPS,
    RATE_SWITCH_COOLDOWN_SECS, RATE_SWITCH_FEE_BPS, REVOCATION_WINDOW_SECS,
};
use crate::types::{Address, Event, InterestRateModel, LoanRecord, LoanStatus, PaymentRecord};
use vstd::prelude::*;

verus! {

/// How a call ends: refused, with the ledger as it was, or done, with the
/// value that it returns and the state that it leads to.
pub open spec fn outcome<T>(
    refusal: Option<LendingError>,
    before: State,
    value: T,
    effect: State,
    result: Result<T, LendingError>,
    after: State,
) -> bool {
    match refusal {
        Some(error) => result == Err::<T, LendingError>(error) && after == before,
        None => result == Ok::<T, LendingError>(value) && after == effect,
    }
}

// ---- Who may call ----

/// The call speaks for `address`, which must have authorised it.
pub open spec fn auth_refusal(ctx: Context, address: Address) -> Option<LendingError> {
    if ctx.authorizers.contains(address) {
        None
    } else {
        Some(LendingError::MissingAuthorisation)
    }
}

/// Only the admin may call.
pub open spec fn admin_refusal(s: State, ctx: Context, caller: Address) -> Option<LendingError> {
    if auth_refusal(ctx, caller) is Some {
        auth_refusal(ctx, caller)
    } else if s.admin is None {
        Some(LendingError::NotInitialised)
    } else if s.admin != Some(caller) {
        Some(LendingError::CallerNotAdmin)
    } else {
        None
    }
}

/// Only the multisig contract may call.
pub open spec fn multisig_refusal(s: State, ctx: Context, caller: Address) -> Option<LendingError> {
    if auth_refusal(ctx, caller) is Some {
        auth_refusal(ctx, caller)
    } else if s.multisig_admin is None {
        Some(LendingError::MultisigNotConfigured)
    } else if s.multisig_admin != Some(caller) {
        Some(LendingError::CallerNotMultisig)
    } else {
        None
    }
}

// ---- Configuration ----

pub open spec fn initialize_refusal(s: State) -> Option<LendingError> {
    if s.admin is Some {
        Some(LendingError::AlreadyInitialised)
    } else {
        None
    }
}

pub open spec fn initialize_effect(s: State, admin: Address) -> State {
    State {
        admin: Some(admin),
        loan_count: Some(0),
        whitelisted_assets: s.whitelisted_assets.insert(admin, true),
        ..s
    }
}

pub open spec fn set_multisig_admin_refusal(s: State, ctx: Context, admin: Address) -> Option<
    LendingError,
> {
    if admin_refusal(s, ctx, admin) is Some {
        admin_refusal(s, ctx, admin)
    } else if s.multisig_admin is Some {
        Some(LendingError::MultisigAlreadyConfigured)
    } else {
        None
    }
}

pub open spec fn set_multisig_admin_effect(s: State, multisig: Address) -> State {
    State { multisig_admin: Some(multisig), ..s }
}

pub open spec fn whitelist_asset_effect(s: State, asset: Address) -> State {
    State { whitelisted_assets: s.whitelisted_assets.insert(asset, true), ..s }
}

pub open spec fn set_governance_refusal(s: State, ctx: Context, caller: Address) -> Option<
    LendingError,
> {
    if multisig_refusal(s, ctx, caller) is Some {
        multisig_refusal(s, ctx, caller)
    } else if s.governance is Some {
        Some(LendingError::GovernanceAlreadyConfigured)
    } else {
        None
    }
}

pub open spec fn set_governance_effect(s: State, governance: Address) -> State {
    State { governance: Some(governance), ..s }
}

pub open spec fn set_platform_fee_bps_refusal(
    s: State,
    ctx: Context,
    caller: Address,
    new_fee_bps: u32,
) -> Option<LendingError> {
    if auth_refusal(ctx, caller) is Some {
        auth_refusal(ctx, caller)
    } else if s.governance is None {
        Some(LendingError::GovernanceNotConfigured)
    } else if s.governance != Some(caller) {
        Some(LendingError::CallerNotGovernance)
    } else if new_fee_bps > MAX_PLATFORM_FEE_BPS {
        Some(LendingError::PlatformFeeTooHigh)
    } else {
        None
    }
}

pub open spec fn set_platform_fee_bps_effect(s: State, new_fee_bps: u32) -> State {
    State { platform_fee_bps: Some(new_fee_bps), ..s }
}

pub open spec fn set_flash_loan_fee_bps_refusal(
    s: State,
    ctx: Context,
    caller: Address,
    new_fee_bps: u32,
) -> Option<LendingError> {
    if multisig_refusal(s, ctx, caller) is Some {
        multisig_refusal(s, ctx, caller)
    } else if new_fee_bps > MAX_FLASH_LOAN_FEE_BPS {
        Some(LendingError::FlashLoanFeeTooHigh)
    } else {
        None
    }
}

pub open spec fn set_flash_loan_fee_bps_effect(s: State, new_fee_bps: u32) -> State {
    State { flash_loan_fee_bps: Some(new_fee_bps), ..s }
}

// ---- Loan lifecycle ----

/// The terms that a borrower asks for.
pub struct LoanRequest {
    pub borrower: Address,
    pub amount: i128,
    pub duration_days: u32,
    pub interest_rate_bps: u32,
    pub max_loan_amount: i128,
    pub collateral_asset: Address,
    pub collateral_amount: i128,
    pub rate_model: InterestRateModel,
}

impl LoanRequest {
    /// Interest over the whole duration.
    pub open spec fn interest(self) -> int {
        math::interest(self.amount as int, self.interest_rate_bps as int, self.duration_days as int)
    }

    /// Duration in seconds.
    pub open spec fn seconds(self) -> int {
        self.duration_days * SECONDS_PER_DAY
    }
}

pub open spec fn create_loan_request_refusal(
    s: State,
    ctx: Context,
    request: LoanRequest,
) -> Option<LendingError> {
    let interest_error = math::interest_refusal(
        request.amount as int,
        request.interest_rate_bps as int,
        request.duration_days as int,
    );
    if auth_refusal(ctx, request.borrower) is Some {
        auth_refusal(ctx, request.borrower)
    } else if request.amount <= 0 {
        Some(LendingError::LoanAmountNotPositive)
    } else if request.amount > request.max_loan_amount {
        Some(LendingError::AmountExceedsLimit)
    } else if !(1 <= request.duration_days <= MAX_DURATION_DAYS) {
        Some(LendingError::DurationOutOfRange)
    } else if request.collateral_amount <= 0 {
        Some(LendingError::CollateralNotPositive)
    } else if !s.whitelisted_assets.contains_key(request.collateral_asset) {
        Some(LendingError::CollateralNotWhitelisted)
    } else if interest_error is Some {
        interest_error
    } else if !math::fits_i128(request.interest() * s.platform_fee()) {
        Some(LendingError::PlatformFeeOverflow)
    } else if !math::fits_i128(request.amount + request.interest()) {
        Some(LendingError::TotalDueOverflow)
    } else if s.count() == u32::MAX {
        Some(LendingError::LoanCountOverflow)
    } else if ctx.timestamp + request.seconds() > u64::MAX {
        Some(LendingError::DueDateOverflow)
    } else {
        None
    }
}

/// The id of the next loan.
pub open spec fn next_loan_id(s: State) -> u32 {
    (s.count() + 1) as u32
}

/// The record that a request opens.
pub open spec fn new_loan(s: State, ctx: Context, request: LoanRequest) -> LoanRecord {
    LoanRecord {
        id: next_loan_id(s),
        borrower: request.borrower,
        lender: s.address,
        amount: request.amount,
        duration_days: request.duration_days,
        interest_rate_bps: request.interest_rate_bps,
        total_due: (request.amount + request.interest()) as i128,
        remaining_due: (request.amount + request.interest()) as i128,
        created_at: ctx.timestamp,
        due_at: (ctx.timestamp + request.seconds()) as u64,
        status: LoanStatus::Pending,
        escrow_id: 0,
        platform_fee: math::bps_of(request.interest(), s.platform_fee() as int) as i128,
        collateral_asset: request.collateral_asset,
        collateral_amount: request.collateral_amount,
        rate_model: request.rate_model,
        base_rate_bps: request.interest_rate_bps,
        last_rate_update: ctx.timestamp,
    }
}

pub open spec fn create_loan_request_effect(s: State, ctx: Context, request: LoanRequest) -> State {
    let loan = new_loan(s, ctx, request);
    State {
        loans: s.loans.insert(loan.id, loan),
        loan_count: Some(loan.id),
        borrower_loans: s.borrower_loans.insert(
            loan.borrower,
            state::ids_of(s.borrower_loans, loan.borrower).push(loan.id),
        ),
        events: s.events.push(
            Event::LoanRequested {
                loan_id: loan.id,
                borrower: loan.borrower,
                amount: loan.amount,
                duration_days: loan.duration_days,
                interest_rate_bps: loan.interest_rate_bps,
                total_due: loan.total_due,
                due_at: loan.due_at,
            },
        ),
        ..s
    }
}

/// The state with another record under a loan id, and one event more.
pub open spec fn with_loan(s: State, loan_id: u32, loan: LoanRecord, event: Event) -> State {
    State { loans: s.loans.insert(loan_id, loan), events: s.events.push(event), ..s }
}

pub open spec fn approve_loan_refusal(s: State, ctx: Context, lender: Address, loan_id: u32) -> Option<
    LendingError,
> {
    if auth_refusal(ctx, lender) is Some {
        auth_refusal(ctx, lender)
    } else if !s.loans.contains_key(loan_id) {
        Some(LendingError::LoanNotFound)
    } else if s.loans[loan_id].status != LoanStatus::Pending {
        Some(LendingError::LoanNotPending)
    } else {
        None
    }
}

pub open spec fn approve_loan_effect(
    s: State,
    ctx: Context,
    lender: Address,
    loan_id: u32,
    escrow_id: u32,
) -> State {
    let loan = LoanRecord { lender, escrow_id, status: LoanStatus::Approved, ..s.loans[loan_id] };
    State {
        lender_loans: s.lender_loans.insert(lender, state::ids_of(s.lender_loans, lender).push(loan_id)),
        approved_at: s.approved_at.insert(loan_id, ctx.timestamp),
        ..with_loan(s, loan_id, loan, Event::LoanApproved { loan_id, lender, escrow_id })
    }
}

/// The loan was approved more than a revocation window ago.
pub open spec fn window_closed(s: State, ctx: Context, loan_id: u32) -> bool {
    s.approved_at.contains_key(loan_id) && ctx.timestamp > s.approved_at[loan_id]
        + REVOCATION_WINDOW_SECS
}

pub open spec fn revoke_approval_refusal(
    s: State,
    ctx: Context,
    lender: Address,
    loan_id: u32,
) -> Option<LendingError> {
    if auth_refusal(ctx, lender) is Some {
        auth_refusal(ctx, lender)
    } else if !s.loans.contains_key(loan_id) {
        Some(LendingError::LoanNotFound)
    } else if s.loans[loan_id].lender != lender {
        Some(LendingError::CallerNotLender)
    } else if s.loans[loan_id].status != LoanStatus::Approved {
        Some(LendingError::LoanNotApproved)
    } else if window_closed(s, ctx, loan_id) {
        Some(LendingError::RevocationWindowClosed)
    } else {
        None
    }
}

pub open spec fn revoke_approval_effect(s: State, loan_id: u32) -> State {
    let loan = LoanRecord {
        lender: s.address,
        escrow_id: 0,
        status: LoanStatus::Pending,
        ..s.loans[loan_id]
    };
    with_loan(s, loan_id, loan, Event::ApprovalRevoked { loan_id })
}

pub open spec fn activate_loan_refusal(s: State, ctx: Context, caller: Address, loan_id: u32) -> Option<
    LendingError,
> {
    if admin_refusal(s, ctx, caller) is Some {
        admin_refusal(s, ctx, caller)
    } else if !s.loans.contains_key(loan_id) {
        Some(LendingError::LoanNotFound)
    } else if s.loans[loan_id].status != LoanStatus::Approved {
        Some(LendingError::ActivationNotApproved)
    } else {
        None
    }
}

pub open spec fn activate_loan_effect(s: State, loan_id: u32) -> State {
    let loan = LoanRecord { status: LoanStatus::Active, ..s.loans[loan_id] };
    with_loan(s, loan_id, loan, Event::LoanActivated { loan_id })
}

pub open spec fn record_payment_refusal(
    s: State,
    ctx: Context,
    caller: Address,
    loan_id: u32,
    amount: i128,
) -> Option<LendingError> {
    if admin_refusal(s, ctx, caller) is Some {
        admin_refusal(s, ctx, caller)
    } else if !s.loans.contains_key(loan_id) {
        Some(LendingError::LoanNotFound)
    } else if s.loans[loan_id].status != LoanStatus::Active {
        Some(LendingError::LoanNotActive)
    } else if amount <= 0 {
        Some(LendingError::PaymentNotPositive)
    } else if s.payment_count(loan_id) == u32::MAX {
        Some(LendingError::PaymentCountOverflow)
    } else {
        None
    }
}

/// The loan after a payment: repaid when the payment covers what remained.
pub open spec fn paid_loan(loan: LoanRecord, amount: i128) -> LoanRecord {
    if amount >= loan.remaining_due {
        LoanRecord { remaining_due: 0, status: LoanStatus::Repaid, ..loan }
    } else {
        LoanRecord { remaining_due: (loan.remaining_due - amount) as i128, ..loan }
    }
}

pub open spec fn record_payment_effect(s: State, ctx: Context, loan_id: u32, amount: i128) -> State {
    let index = (s.payment_count(loan_id) + 1) as u32;
    let payment = PaymentRecord { loan_id, amount, paid_at: ctx.timestamp };
    let loan = paid_loan(s.loans[loan_id], amount);
    State {
        payments: s.payments.insert((loan_id, index), payment),
        payment_counts: s.payment_counts.insert(loan_id, index),
        ..with_loan(
            s,
            loan_id,
            loan,
            Event::PaymentRecorded {
                loan_id,
                amount,
                remaining_due: loan.remaining_due,
                status: loan.status,
            },
        )
    }
}

pub open spec fn mark_defaulted_refusal(s: State, ctx: Context, caller: Address, loan_id: u32) -> Option<
    LendingError,
> {
    if admin_refusal(s, ctx, caller) is Some {
        admin_refusal(s, ctx, caller)
    } else if !s.loans.contains_key(loan_id) {
        Some(LendingError::LoanNotFound)
    } else if s.loans[loan_id].status != LoanStatus::Active {
        Some(LendingError::DefaultNotActive)
    } else {
        None
    }
}

pub open spec fn mark_defaulted_effect(s: State, loan_id: u32) -> State {
    let loan = LoanRecord { status: LoanStatus::Defaulted, ..s.loans[loan_id] };
    with_loan(s, loan_id, loan, Event::LoanDefaulted { loan_id })
}

// ---- Rate models ----

/// The other rate model.
pub open spec fn other_model(model: InterestRateModel) -> InterestRateModel {
    match model {
        InterestRateModel::Fixed => InterestRateModel::Floating,
        InterestRateModel::Floating => InterestRateModel::Fixed,
    }
}

/// The fee for switching the rate model of a loan.
pub open spec fn switch_fee(loan: LoanRecord) -> int {
    math::bps_of(loan.remaining_due as int, RATE_SWITCH_FEE_BPS as int)
}

/// The last switch of the loan is less than a cooldown ago.
pub open spec fn cooling_down(s: State, ctx: Context, loan_id: u32) -> bool {
    s.rate_switch_cooldowns.contains_key(loan_id) && ctx.timestamp
        < s.rate_switch_cooldowns[loan_id] + RATE_SWITCH_COOLDOWN_SECS
}

pub open spec fn switch_rate_model_refusal(
    s: State,
    ctx: Context,
    borrower: Address,
    loan_id: u32,
) -> Option<LendingError> {
    let loan = s.loans[loan_id];
    if auth_refusal(ctx, borrower) is Some {
        auth_refusal(ctx, borrower)
    } else if !s.loans.contains_key(loan_id) {
        Some(LendingError::LoanNotFound)
    } else if loan.borrower != borrower {
        Some(LendingError::CallerNotBorrower)
    } else if loan.status != LoanStatus::Active {
        Some(LendingError::SwitchNotActive)
    } else if cooling_down(s, ctx, loan_id) {
        Some(LendingError::SwitchCooldown)
    } else if !math::fits_i128(loan.remaining_due * RATE_SWITCH_FEE_BPS) {
        Some(LendingError::SwitchFeeOverflow)
    } else if !math::fits_i128(loan.remaining_due + switch_fee(loan)) {
        Some(LendingError::SwitchRemainingOverflow)
    } else if !math::fits_i128(loan.total_due + switch_fee(loan)) {
        Some(LendingError::SwitchTotalOverflow)
    } else {
        None
    }
}

pub open spec fn switch_rate_model_effect(s: State, ctx: Context, loan_id: u32) -> State {
    let before = s.loans[loan_id];
    let fee = switch_fee(before);
    let loan = LoanRecord {
        remaining_due: (before.remaining_due + fee) as i128,
        total_due: (before.total_due + fee) as i128,
        rate_model: other_model(before.rate_model),
        last_rate_update: ctx.timestamp,
        ..before
    };
    State {
        rate_switch_cooldowns: s.rate_switch_cooldowns.insert(loan_id, ctx.timestamp),
        ..with_loan(
            s,
            loan_id,
            loan,
            Event::RateModelSwitched { loan_id, rate_model: loan.rate_model, fee: fee as i128 },
        )
    }
}

/// Whole days from `now` to the deadline, as a `u32` counts them.
pub open spec fn days_left(due_at: u64, now: u64) -> int {
    if due_at > now {
        ((due_at - now) / SECONDS_PER_DAY as int) % 0x1_0000_0000
    } else {
        0
    }
}

/// The principal that interest is still owed on.
pub open spec fn open_principal(loan: LoanRecord) -> int {
    if loan.remaining_due > 0 {
        loan.amount as int
    } else {
        0
    }
}

/// Interest at a new rate over the days that are left.
pub open spec fn updated_interest(loan: LoanRecord, now: u64, new_rate_bps: u32) -> int {
    math::interest(open_principal(loan), new_rate_bps as int, days_left(loan.due_at, now))
}

/// What was already paid.
pub open spec fn paid_so_far(loan: LoanRecord) -> int {
    loan.total_due - loan.remaining_due
}

pub open spec fn update_floating_rate_refusal(
    s: State,
    ctx: Context,
    caller: Address,
    loan_id: u32,
    new_rate_bps: u32,
) -> Option<LendingError> {
    let loan = s.loans[loan_id];
    let new_total = loan.amount + updated_interest(loan, ctx.timestamp, new_rate_bps);
    let interest_error = math::interest_refusal(
        open_principal(loan),
        new_rate_bps as int,
        days_left(loan.due_at, ctx.timestamp),
    );
    if admin_refusal(s, ctx, caller) is Some {
        admin_refusal(s, ctx, caller)
    } else if !s.loans.contains_key(loan_id) {
        Some(LendingError::LoanNotFound)
    } else if loan.rate_model != InterestRateModel::Floating {
        Some(LendingError::RateNotFloating)
    } else if loan.status != LoanStatus::Active {
        Some(LendingError::RateUpdateNotActive)
    } else if !math::fits_i128(paid_so_far(loan)) {
        Some(LendingError::PaidAmountOverflow)
    } else if interest_error is Some {
        interest_error
    } else if !math::fits_i128(new_total) {
        Some(LendingError::RecomputedTotalOverflow)
    } else if !math::fits_i128(new_total - paid_so_far(loan)) {
        Some(LendingError::RemainingDueUnderflow)
    } else {
        None
    }
}

pub open spec fn update_floating_rate_effect(
    s: State,
    ctx: Context,
    loan_id: u32,
    new_rate_bps: u32,
) -> State {
    let before = s.loans[loan_id];
    let new_total = before.amount + updated_interest(before, ctx.timestamp, new_rate_bps);
    let loan = LoanRecord {
        total_due: new_total as i128,
        remaining_due: (new_total - paid_so_far(before)) as i128,
        interest_rate_bps: new_rate_bps,
        last_rate_update: ctx.timestamp,
        ..before
    };
    with_loan(
        s,
        loan_id,
        loan,
        Event::RateUpdated { loan_id, new_rate_bps, remaining_due: loan.remaining_due },
    )
}

} // verus!
