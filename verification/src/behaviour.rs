//! What each call does, said of its arguments and of what it leaves behind.
//!
//! The laws here speak of nothing but ledger entries, arguments and numbers.
//! For every call there is one on its refusals, which says for every case how
//! the call ends, and one on its effect, which says what every ledger entry
//! holds afterwards. Quotients are said by the inequalities that they meet.
use crate::errors::LendingError;
use crate::flash;
use crate::flash::{FlashLoanReply, FlashLoanStage, FlashLoanView};
use crate::history;
use crate::history::Call;
use crate::math;
use crate::model;
use crate::model::LoanRequest;
use crate::queries;
use crate::soundness;
use crate::state;
use crate::state::{Context, Env, LendingContract, State};
use crate::types::{Address, DataKey, Event, LoanRecord, LoanStatus, PaymentRecord};
use vstd::prelude::*;

verus! {

// ---- What states and calls are made of ----

/// A call ends in one of two ways: refused, with the error and the ledger as
/// it was, or done, with the value and the new state.
pub proof fn a_call_ends_in_one_of_two_ways<T>(
    refusal: Option<LendingError>,
    before: State,
    value: T,
    effect: State,
    result: Result<T, LendingError>,
    after: State,
)
    requires
        model::outcome(refusal, before, value, effect, result, after),
    ensures
        refusal is Some ==> result == Err::<T, LendingError>(refusal->0) && after == before,
        refusal is None ==> result == Ok::<T, LendingError>(value) && after == effect,
{
}

/// The view of a contract shows every ledger entry as it is.
pub proof fn view_shows_every_entry(c: LendingContract, address: Address)
    ensures
        c@.address == c.address,
        c@.admin == c.admin,
        c@.multisig_admin == c.multisig_admin,
        c@.governance == c.governance,
        c@.platform_fee_bps == c.platform_fee_bps,
        c@.flash_loan_fee_bps == c.flash_loan_fee_bps,
        c@.loan_count == c.loan_count,
        c@.whitelisted_assets == c.whitelisted_assets@,
        c@.loans == c.loans@,
        c@.payment_counts == c.payment_counts@,
        c@.payments == c.payments@,
        c@.rate_switch_cooldowns == c.rate_switch_cooldowns@,
        c@.approved_at == c.approved_at@,
        c@.events == c.events@,
        c@.borrower_loans.contains_key(address) == c.borrower_loans@.contains_key(address),
        c.borrower_loans@.contains_key(address) ==> c@.borrower_loans[address]
            == c.borrower_loans@[address]@,
        c@.lender_loans.contains_key(address) == c.lender_loans@.contains_key(address),
        c.lender_loans@.contains_key(address) ==> c@.lender_loans[address]
            == c.lender_loans@[address]@,
{
}

/// The view of an environment shows its time, and exactly the addresses that
/// authorised the call.
pub proof fn view_shows_who_authorised(env: Env, address: Address)
    ensures
        env@.timestamp == env.timestamp,
        env@.authorizers.contains(address) <==> env.authorizers@.contains(address),
{
}

/// A contract that was never called holds no entry.
pub proof fn deployed_contracts_are_empty(address: Address)
    ensures
        ({
            let s = state::deployed(address);
            &&& s.address == address
            &&& s.admin is None
            &&& s.multisig_admin is None
            &&& s.governance is None
            &&& s.platform_fee_bps is None
            &&& s.flash_loan_fee_bps is None
            &&& s.loan_count is None
            &&& s.whitelisted_assets == Map::<Address, bool>::empty()
            &&& s.loans == Map::<u32, LoanRecord>::empty()
            &&& s.borrower_loans == Map::<Address, Seq<u32>>::empty()
            &&& s.lender_loans == Map::<Address, Seq<u32>>::empty()
            &&& s.payment_counts == Map::<u32, u32>::empty()
            &&& s.payments == Map::<(u32, u32), PaymentRecord>::empty()
            &&& s.rate_switch_cooldowns == Map::<u32, u64>::empty()
            &&& s.approved_at == Map::<u32, u64>::empty()
            &&& s.events == Seq::<Event>::empty()
        }),
{
}

/// Until they are set, the platform fee is 1 % of interest, the flash-loan fee
/// 0.09 % of the amount, and the numbers of loans and payments 0.
pub proof fn defaults_hold_until_they_are_set(s: State, loan_id: u32)
    ensures
        s.platform_fee_bps is None ==> s.platform_fee() == 100,
        s.platform_fee_bps is Some ==> s.platform_fee() == s.platform_fee_bps->0,
        s.flash_loan_fee_bps is None ==> s.flash_loan_fee() == 9,
        s.flash_loan_fee_bps is Some ==> s.flash_loan_fee() == s.flash_loan_fee_bps->0,
        s.loan_count is None ==> s.count() == 0,
        s.loan_count is Some ==> s.count() == s.loan_count->0,
        !s.payment_counts.contains_key(loan_id) ==> s.payment_count(loan_id) == 0,
        s.payment_counts.contains_key(loan_id) ==> s.payment_count(loan_id)
            == s.payment_counts[loan_id],
{
}

/// The ledger holds something under a key exactly when the entry of that name
/// was written.
pub proof fn keys_stand_for_entries(s: State, id: u32, index: u32, address: Address)
    ensures
        s.has(DataKey::Loan(id)) == s.loans.contains_key(id),
        s.has(DataKey::LoanCount) == (s.loan_count is Some),
        s.has(DataKey::BorrowerLoans(address)) == s.borrower_loans.contains_key(address),
        s.has(DataKey::LenderLoans(address)) == s.lender_loans.contains_key(address),
        s.has(DataKey::Payment(id, index)) == s.payments.contains_key((id, index)),
        s.has(DataKey::PaymentCount(id)) == s.payment_counts.contains_key(id),
        s.has(DataKey::Admin) == (s.admin is Some),
        s.has(DataKey::PlatformFeeBps) == (s.platform_fee_bps is Some),
        s.has(DataKey::Governance) == (s.governance is Some),
        s.has(DataKey::WhitelistedAsset(address)) == s.whitelisted_assets.contains_key(address),
        s.has(DataKey::FlashLoanFeeBps) == (s.flash_loan_fee_bps is Some),
        s.has(DataKey::MultiSigAdmin) == (s.multisig_admin is Some),
        s.has(DataKey::RateSwitchCooldown(id)) == s.rate_switch_cooldowns.contains_key(id),
        s.has(DataKey::ApprovedAt(id)) == s.approved_at.contains_key(id),
{
}

// ---- Configuration ----

/// The first call of `initialize`, and no other, is accepted. It names the
/// admin, whitelists the admin's address, starts the count of loans at 0, and
/// changes nothing else.
pub proof fn initialize_names_the_admin(s: State, admin: Address, other: Address)
    ensures
        s.admin is Some ==> model::initialize_refusal(s) == Some(LendingError::AlreadyInitialised),
        s.admin is None ==> model::initialize_refusal(s) is None,
        ({
            let t = model::initialize_effect(s, admin);
            &&& t.admin == Some(admin)
            &&& t.loan_count == Some(0u32)
            &&& t.whitelisted_assets.contains_key(other) <==> other == admin
                || s.whitelisted_assets.contains_key(other)
            &&& t.whitelisted_assets[admin]
            &&& other != admin && s.whitelisted_assets.contains_key(other)
                ==> t.whitelisted_assets[other] == s.whitelisted_assets[other]
            &&& t == (State {
                admin: t.admin,
                loan_count: t.loan_count,
                whitelisted_assets: t.whitelisted_assets,
                ..s
            })
        }),
{
}

/// The multisig contract is linked by the admin, once, and nothing else
/// changes.
pub proof fn set_multisig_admin_links_once(s: State, ctx: Context, admin: Address, multisig: Address)
    ensures
        ({
            let r = model::set_multisig_admin_refusal(s, ctx, admin);
            let auth = ctx.authorizers.contains(admin);
            &&& !auth ==> r == Some(LendingError::MissingAuthorisation)
            &&& auth && s.admin is None ==> r == Some(LendingError::NotInitialised)
            &&& auth && s.admin is Some && s.admin->0 != admin ==> r == Some(
                LendingError::CallerNotAdmin,
            )
            &&& auth && s.admin == Some(admin) && s.multisig_admin is Some ==> r == Some(
                LendingError::MultisigAlreadyConfigured,
            )
            &&& auth && s.admin == Some(admin) && s.multisig_admin is None ==> r is None
        }),
        ({
            let t = model::set_multisig_admin_effect(s, multisig);
            &&& t.multisig_admin == Some(multisig)
            &&& t == (State { multisig_admin: t.multisig_admin, ..s })
        }),
{
}

/// The multisig contract, and no one else, whitelists an asset, and nothing
/// else changes.
pub proof fn whitelist_asset_adds_one_asset(
    s: State,
    ctx: Context,
    caller: Address,
    asset: Address,
    other: Address,
)
    ensures
        ({
            let r = model::multisig_refusal(s, ctx, caller);
            let auth = ctx.authorizers.contains(caller);
            &&& !auth ==> r == Some(LendingError::MissingAuthorisation)
            &&& auth && s.multisig_admin is None ==> r == Some(LendingError::MultisigNotConfigured)
            &&& auth && s.multisig_admin is Some && s.multisig_admin->0 != caller ==> r == Some(
                LendingError::CallerNotMultisig,
            )
            &&& auth && s.multisig_admin == Some(caller) ==> r is None
        }),
        ({
            let t = model::whitelist_asset_effect(s, asset);
            &&& t.whitelisted_assets.contains_key(other) <==> other == asset
                || s.whitelisted_assets.contains_key(other)
            &&& t.whitelisted_assets[asset]
            &&& other != asset && s.whitelisted_assets.contains_key(other)
                ==> t.whitelisted_assets[other] == s.whitelisted_assets[other]
            &&& t == (State { whitelisted_assets: t.whitelisted_assets, ..s })
        }),
{
}

/// The governance contract is linked by the multisig contract, once, and
/// nothing else changes.
pub proof fn set_governance_links_once(
    s: State,
    ctx: Context,
    caller: Address,
    governance: Address,
)
    ensures
        ({
            let r = model::set_governance_refusal(s, ctx, caller);
            let auth = ctx.authorizers.contains(caller);
            &&& !auth ==> r == Some(LendingError::MissingAuthorisation)
            &&& auth && s.multisig_admin is None ==> r == Some(LendingError::MultisigNotConfigured)
            &&& auth && s.multisig_admin is Some && s.multisig_admin->0 != caller ==> r == Some(
                LendingError::CallerNotMultisig,
            )
            &&& auth && s.multisig_admin == Some(caller) && s.governance is Some ==> r == Some(
                LendingError::GovernanceAlreadyConfigured,
            )
            &&& auth && s.multisig_admin == Some(caller) && s.governance is None ==> r is None
        }),
        ({
            let t = model::set_governance_effect(s, governance);
            &&& t.governance == Some(governance)
            &&& t == (State { governance: t.governance, ..s })
        }),
{
}

/// The governance contract sets the platform fee to anything up to 1000 basis
/// points, and nothing else changes.
pub proof fn set_platform_fee_bps_sets_the_fee(
    s: State,
    ctx: Context,
    caller: Address,
    new_fee_bps: u32,
)
    ensures
        ({
            let r = model::set_platform_fee_bps_refusal(s, ctx, caller, new_fee_bps);
            let auth = ctx.authorizers.contains(caller);
            &&& !auth ==> r == Some(LendingError::MissingAuthorisation)
            &&& auth && s.governance is None ==> r == Some(LendingError::GovernanceNotConfigured)
            &&& auth && s.governance is Some && s.governance->0 != caller ==> r == Some(
                LendingError::CallerNotGovernance,
            )
            &&& auth && s.governance == Some(caller) && new_fee_bps > 1000 ==> r == Some(
                LendingError::PlatformFeeTooHigh,
            )
            &&& auth && s.governance == Some(caller) && new_fee_bps <= 1000 ==> r is None
        }),
        ({
            let t = model::set_platform_fee_bps_effect(s, new_fee_bps);
            &&& t.platform_fee_bps == Some(new_fee_bps)
            &&& t == (State { platform_fee_bps: t.platform_fee_bps, ..s })
        }),
{
}

/// The multisig contract sets the flash-loan fee to anything up to 500 basis
/// points, and nothing else changes.
pub proof fn set_flash_loan_fee_bps_sets_the_fee(
    s: State,
    ctx: Context,
    caller: Address,
    new_fee_bps: u32,
)
    ensures
        ({
            let r = model::set_flash_loan_fee_bps_refusal(s, ctx, caller, new_fee_bps);
            let auth = ctx.authorizers.contains(caller);
            &&& !auth ==> r == Some(LendingError::MissingAuthorisation)
            &&& auth && s.multisig_admin is None ==> r == Some(LendingError::MultisigNotConfigured)
            &&& auth && s.multisig_admin is Some && s.multisig_admin->0 != caller ==> r == Some(
                LendingError::CallerNotMultisig,
            )
            &&& auth && s.multisig_admin == Some(caller) && new_fee_bps > 500 ==> r == Some(
                LendingError::FlashLoanFeeTooHigh,
            )
            &&& auth && s.multisig_admin == Some(caller) && new_fee_bps <= 500 ==> r is None
        }),
        ({
            let t = model::set_flash_loan_fee_bps_effect(s, new_fee_bps);
            &&& t.flash_loan_fee_bps == Some(new_fee_bps)
            &&& t == (State { flash_loan_fee_bps: t.flash_loan_fee_bps, ..s })
        }),
{
}

// ---- Requests ----

/// A request is accepted exactly when its borrower authorised it, its amount
/// is positive and within the limit, its duration 1 to 365 days, its
/// collateral positive and of a whitelisted asset, and its numbers can be
/// held; whatever its rate model. Otherwise it is refused for the first of
/// these that fails. `interest` is the floor of
/// amount x rate x days / 3 650 000.
pub proof fn create_loan_request_refusals(s: State, ctx: Context, q: LoanRequest, interest: int)
    requires
        interest * 3_650_000 <= q.amount * q.interest_rate_bps * q.duration_days < (interest + 1)
            * 3_650_000,
    ensures
        ({
            let r = model::create_loan_request_refusal(s, ctx, q);
            let fee_bps = if s.platform_fee_bps is Some {
                s.platform_fee_bps->0 as int
            } else {
                100
            };
            let auth = ctx.authorizers.contains(q.borrower);
            let sized = auth && 0 < q.amount <= q.max_loan_amount;
            let timed = sized && 1 <= q.duration_days <= 365;
            let backed = timed && q.collateral_amount > 0 && s.whitelisted_assets.contains_key(
                q.collateral_asset,
            );
            let rated = backed && q.amount * q.interest_rate_bps <= i128::MAX;
            let priced = rated && q.amount * q.interest_rate_bps * q.duration_days <= i128::MAX;
            let charged = priced && interest * fee_bps <= i128::MAX;
            let summed = charged && q.amount + interest <= i128::MAX;
            let counted = summed && !(s.loan_count == Some(u32::MAX));
            let dated = counted && ctx.timestamp + q.duration_days * 86_400 <= u64::MAX;
            &&& !auth ==> r == Some(LendingError::MissingAuthorisation)
            &&& auth && q.amount <= 0 ==> r == Some(LendingError::LoanAmountNotPositive)
            &&& auth && q.amount > 0 && q.amount > q.max_loan_amount ==> r == Some(
                LendingError::AmountExceedsLimit,
            )
            &&& sized && !timed ==> r == Some(LendingError::DurationOutOfRange)
            &&& timed && q.collateral_amount <= 0 ==> r == Some(LendingError::CollateralNotPositive)
            &&& timed && q.collateral_amount > 0 && !backed ==> r == Some(
                LendingError::CollateralNotWhitelisted,
            )
            &&& backed && !rated ==> r == Some(LendingError::InterestRateOverflow)
            &&& rated && !priced ==> r == Some(LendingError::InterestDaysOverflow)
            &&& priced && !charged ==> r == Some(LendingError::PlatformFeeOverflow)
            &&& charged && !summed ==> r == Some(LendingError::TotalDueOverflow)
            &&& summed && !counted ==> r == Some(LendingError::LoanCountOverflow)
            &&& counted && !dated ==> r == Some(LendingError::DueDateOverflow)
            &&& dated ==> r is None
        }),
{
    request_products(s, q);
}

/// Products of a request with a positive amount are not negative.
proof fn request_products(s: State, q: LoanRequest)
    ensures
        q.amount > 0 ==> q.amount * q.interest_rate_bps >= 0,
        q.amount > 0 ==> q.amount * q.interest_rate_bps * q.duration_days >= 0,
        q.amount > 0 ==> q.interest() >= 0 && q.interest() * s.platform_fee() >= 0,
{
    if q.amount > 0 {
        let (amount, rate, days) = (
            q.amount as int,
            q.interest_rate_bps as int,
            q.duration_days as int,
        );
        assert(amount * rate >= 0) by (nonlinear_arith)
            requires
                amount > 0,
                rate >= 0,
        ;
        let yearly = amount * rate;
        assert(yearly * days >= 0) by (nonlinear_arith)
            requires
                yearly >= 0,
                days >= 0,
        ;
        math::interest_not_negative(amount, rate, days);
        let (owed, fee_bps) = (q.interest(), s.platform_fee() as int);
        assert(owed * fee_bps >= 0) by (nonlinear_arith)
            requires
                owed >= 0,
                fee_bps >= 0,
        ;
    }
}

/// An accepted request opens a pending loan under the next number, which owes
/// the amount and the floor of amount x rate x days / 3 650 000 as interest;
/// its platform fee is the floor of interest x fee in force / 10 000, whatever
/// the rate model; it is due after its days. The borrower's list, the count
/// and the events gain one entry, and nothing else changes.
pub proof fn create_loan_request_opens_the_loan(
    s: State,
    ctx: Context,
    q: LoanRequest,
    other: u32,
    someone: Address,
)
    requires
        model::create_loan_request_refusal(s, ctx, q) is None,
    ensures
        ({
            let t = model::create_loan_request_effect(s, ctx, q);
            let fee_bps = if s.platform_fee_bps is Some {
                s.platform_fee_bps->0 as int
            } else {
                100
            };
            let before = if s.loan_count is Some {
                s.loan_count->0 as int
            } else {
                0
            };
            let id = model::next_loan_id(s);
            let loan = t.loans[id];
            let charged = loan.total_due - q.amount;
            let listed = if s.borrower_loans.contains_key(q.borrower) {
                s.borrower_loans[q.borrower]
            } else {
                Seq::empty()
            };
            &&& id == before + 1
            &&& t.loan_count == Some(id)
            &&& t.loans.contains_key(id)
            &&& charged * 3_650_000 <= q.amount * q.interest_rate_bps * q.duration_days < (charged
                + 1) * 3_650_000
            &&& loan.platform_fee * 10_000 <= charged * fee_bps < (loan.platform_fee + 1) * 10_000
            &&& loan.remaining_due == loan.total_due
            &&& loan.due_at == ctx.timestamp + q.duration_days * 86_400
            &&& loan == (LoanRecord {
                id,
                borrower: q.borrower,
                lender: s.address,
                amount: q.amount,
                duration_days: q.duration_days,
                interest_rate_bps: q.interest_rate_bps,
                total_due: loan.total_due,
                remaining_due: loan.remaining_due,
                created_at: ctx.timestamp,
                due_at: loan.due_at,
                status: LoanStatus::Pending,
                escrow_id: 0,
                platform_fee: loan.platform_fee,
                collateral_asset: q.collateral_asset,
                collateral_amount: q.collateral_amount,
                rate_model: q.rate_model,
                base_rate_bps: q.interest_rate_bps,
                last_rate_update: ctx.timestamp,
            })
            &&& other != id ==> t.loans.contains_key(other) == s.loans.contains_key(other)
            &&& other != id && s.loans.contains_key(other) ==> t.loans[other] == s.loans[other]
            &&& t.borrower_loans.contains_key(q.borrower)
            &&& t.borrower_loans[q.borrower] == listed.push(id)
            &&& someone != q.borrower ==> t.borrower_loans.contains_key(someone)
                == s.borrower_loans.contains_key(someone)
            &&& someone != q.borrower && s.borrower_loans.contains_key(someone)
                ==> t.borrower_loans[someone] == s.borrower_loans[someone]
            &&& t.events == s.events.push(
                Event::LoanRequested {
                    loan_id: id,
                    borrower: q.borrower,
                    amount: q.amount,
                    duration_days: q.duration_days,
                    interest_rate_bps: q.interest_rate_bps,
                    total_due: loan.total_due,
                    due_at: loan.due_at,
                },
            )
            &&& t == (State {
                loans: t.loans,
                loan_count: t.loan_count,
                borrower_loans: t.borrower_loans,
                events: t.events,
                ..s
            })
        }),
{
    request_products(s, q);
    let (owed, fee_bps) = (q.interest(), s.platform_fee() as int);
    math::bps_share(owed, fee_bps, fee_bps);
    assert(math::fits_i128(owed * fee_bps));
    assert(math::fits_i128(q.amount + owed));
}

// ---- Approval ----

/// A loan is approved exactly when its lender authorised the call and the
/// loan is pending.
pub proof fn approve_loan_refusals(s: State, ctx: Context, lender: Address, loan_id: u32)
    ensures
        ({
            let r = model::approve_loan_refusal(s, ctx, lender, loan_id);
            let auth = ctx.authorizers.contains(lender);
            let found = auth && s.loans.contains_key(loan_id);
            &&& !auth ==> r == Some(LendingError::MissingAuthorisation)
            &&& auth && !found ==> r == Some(LendingError::LoanNotFound)
            &&& found && s.loans[loan_id].status !is Pending ==> r == Some(
                LendingError::LoanNotPending,
            )
            &&& found && s.loans[loan_id].status is Pending ==> r is None
        }),
{
}

/// An approved loan has its lender, its escrow and its time of approval, and
/// stands in the lender's list; nothing else about it changes, nor about any
/// other loan.
pub proof fn approve_loan_binds_the_lender(
    s: State,
    ctx: Context,
    lender: Address,
    loan_id: u32,
    escrow_id: u32,
    other: u32,
    someone: Address,
)
    ensures
        ({
            let t = model::approve_loan_effect(s, ctx, lender, loan_id, escrow_id);
            let listed = if s.lender_loans.contains_key(lender) {
                s.lender_loans[lender]
            } else {
                Seq::empty()
            };
            &&& t.loans.contains_key(loan_id)
            &&& t.loans[loan_id].status is Approved
            &&& t.loans[loan_id] == (LoanRecord {
                lender,
                escrow_id,
                status: t.loans[loan_id].status,
                ..s.loans[loan_id]
            })
            &&& t.approved_at.contains_key(loan_id)
            &&& t.approved_at[loan_id] == ctx.timestamp
            &&& t.lender_loans.contains_key(lender)
            &&& t.lender_loans[lender] == listed.push(loan_id)
            &&& other != loan_id ==> {
                &&& t.loans.contains_key(other) == s.loans.contains_key(other)
                &&& s.loans.contains_key(other) ==> t.loans[other] == s.loans[other]
                &&& t.approved_at.contains_key(other) == s.approved_at.contains_key(other)
                &&& s.approved_at.contains_key(other) ==> t.approved_at[other]
                    == s.approved_at[other]
            }
            &&& someone != lender ==> {
                &&& t.lender_loans.contains_key(someone) == s.lender_loans.contains_key(someone)
                &&& s.lender_loans.contains_key(someone) ==> t.lender_loans[someone]
                    == s.lender_loans[someone]
            }
            &&& t.events == s.events.push(Event::LoanApproved { loan_id, lender, escrow_id })
            &&& t == (State {
                loans: t.loans,
                approved_at: t.approved_at,
                lender_loans: t.lender_loans,
                events: t.events,
                ..s
            })
        }),
{
}

/// An approval is taken back exactly when the loan's lender authorised the
/// call, the loan is approved, and no more than an hour has passed since then.
pub proof fn revoke_approval_refusals(s: State, ctx: Context, lender: Address, loan_id: u32)
    ensures
        ({
            let r = model::revoke_approval_refusal(s, ctx, lender, loan_id);
            let auth = ctx.authorizers.contains(lender);
            let found = auth && s.loans.contains_key(loan_id);
            let own = found && s.loans[loan_id].lender == lender;
            let approved = own && s.loans[loan_id].status is Approved;
            let late = s.approved_at.contains_key(loan_id) && ctx.timestamp
                - s.approved_at[loan_id] > 3_600;
            &&& !auth ==> r == Some(LendingError::MissingAuthorisation)
            &&& auth && !found ==> r == Some(LendingError::LoanNotFound)
            &&& found && !own ==> r == Some(LendingError::CallerNotLender)
            &&& own && !approved ==> r == Some(LendingError::LoanNotApproved)
            &&& approved && late ==> r == Some(LendingError::RevocationWindowClosed)
            &&& approved && !late ==> r is None
        }),
{
}

/// A loan whose approval is taken back is pending again, without lender and
/// escrow; nothing else about it changes, nor about any other loan.
pub proof fn revoke_approval_frees_the_loan(s: State, loan_id: u32, other: u32)
    ensures
        ({
            let t = model::revoke_approval_effect(s, loan_id);
            &&& t.loans.contains_key(loan_id)
            &&& t.loans[loan_id].status is Pending
            &&& t.loans[loan_id].escrow_id == 0
            &&& t.loans[loan_id] == (LoanRecord {
                lender: s.address,
                escrow_id: t.loans[loan_id].escrow_id,
                status: t.loans[loan_id].status,
                ..s.loans[loan_id]
            })
            &&& other != loan_id ==> {
                &&& t.loans.contains_key(other) == s.loans.contains_key(other)
                &&& s.loans.contains_key(other) ==> t.loans[other] == s.loans[other]
            }
            &&& t.events == s.events.push(Event::ApprovalRevoked { loan_id })
            &&& t == (State { loans: t.loans, events: t.events, ..s })
        }),
{
}

// ---- Active loans ----

/// The admin activates every approved loan, and no other.
pub proof fn activate_loan_refusals(s: State, ctx: Context, caller: Address, loan_id: u32)
    ensures
        ({
            let r = model::activate_loan_refusal(s, ctx, caller, loan_id);
            let auth = ctx.authorizers.contains(caller);
            let admin = auth && s.admin == Some(caller);
            let found = admin && s.loans.contains_key(loan_id);
            &&& !auth ==> r == Some(LendingError::MissingAuthorisation)
            &&& auth && s.admin is None ==> r == Some(LendingError::NotInitialised)
            &&& auth && s.admin is Some && !admin ==> r == Some(LendingError::CallerNotAdmin)
            &&& admin && !found ==> r == Some(LendingError::LoanNotFound)
            &&& found && s.loans[loan_id].status !is Approved ==> r == Some(
                LendingError::ActivationNotApproved,
            )
            &&& found && s.loans[loan_id].status is Approved ==> r is None
        }),
{
}

/// An activated loan is active; nothing else about it changes, nor about any
/// other loan.
pub proof fn activate_loan_activates(s: State, loan_id: u32, other: u32)
    ensures
        ({
            let t = model::activate_loan_effect(s, loan_id);
            &&& t.loans.contains_key(loan_id)
            &&& t.loans[loan_id].status is Active
            &&& t.loans[loan_id] == (LoanRecord {
                status: t.loans[loan_id].status,
                ..s.loans[loan_id]
            })
            &&& other != loan_id ==> {
                &&& t.loans.contains_key(other) == s.loans.contains_key(other)
                &&& s.loans.contains_key(other) ==> t.loans[other] == s.loans[other]
            }
            &&& t.events == s.events.push(Event::LoanActivated { loan_id })
            &&& t == (State { loans: t.loans, events: t.events, ..s })
        }),
{
}

/// The admin marks every active loan as defaulted, at any time, and no other
/// loan.
pub proof fn mark_defaulted_refusals(s: State, ctx: Context, caller: Address, loan_id: u32)
    ensures
        ({
            let r = model::mark_defaulted_refusal(s, ctx, caller, loan_id);
            let auth = ctx.authorizers.contains(caller);
            let admin = auth && s.admin == Some(caller);
            let found = admin && s.loans.contains_key(loan_id);
            &&& !auth ==> r == Some(LendingError::MissingAuthorisation)
            &&& auth && s.admin is None ==> r == Some(LendingError::NotInitialised)
            &&& auth && s.admin is Some && !admin ==> r == Some(LendingError::CallerNotAdmin)
            &&& admin && !found ==> r == Some(LendingError::LoanNotFound)
            &&& found && s.loans[loan_id].status !is Active ==> r == Some(
                LendingError::DefaultNotActive,
            )
            &&& found && s.loans[loan_id].status is Active ==> r is None
        }),
{
}

/// A loan that is marked so is defaulted; nothing else about it changes, what
/// it owes included, nor about any other loan.
pub proof fn mark_defaulted_closes_the_loan(s: State, loan_id: u32, other: u32)
    ensures
        ({
            let t = model::mark_defaulted_effect(s, loan_id);
            &&& t.loans.contains_key(loan_id)
            &&& t.loans[loan_id].status is Defaulted
            &&& t.loans[loan_id] == (LoanRecord {
                status: t.loans[loan_id].status,
                ..s.loans[loan_id]
            })
            &&& other != loan_id ==> {
                &&& t.loans.contains_key(other) == s.loans.contains_key(other)
                &&& s.loans.contains_key(other) ==> t.loans[other] == s.loans[other]
            }
            &&& t.events == s.events.push(Event::LoanDefaulted { loan_id })
            &&& t == (State { loans: t.loans, events: t.events, ..s })
        }),
{
}

// ---- Payments ----

/// A positive payment that the admin authorises on an active loan is accepted
/// at every time, before and after the deadline alike, as long as payments can
/// be counted. Every other payment is refused.
pub proof fn record_payment_refusals(
    s: State,
    ctx: Context,
    caller: Address,
    loan_id: u32,
    amount: i128,
)
    ensures
        ({
            let r = model::record_payment_refusal(s, ctx, caller, loan_id, amount);
            let auth = ctx.authorizers.contains(caller);
            let admin = auth && s.admin == Some(caller);
            let found = admin && s.loans.contains_key(loan_id);
            let active = found && s.loans[loan_id].status is Active;
            let positive = active && amount > 0;
            let full = s.payment_counts.contains_key(loan_id) && s.payment_counts[loan_id]
                == u32::MAX;
            &&& !auth ==> r == Some(LendingError::MissingAuthorisation)
            &&& auth && s.admin is None ==> r == Some(LendingError::NotInitialised)
            &&& auth && s.admin is Some && !admin ==> r == Some(LendingError::CallerNotAdmin)
            &&& admin && !found ==> r == Some(LendingError::LoanNotFound)
            &&& found && !active ==> r == Some(LendingError::LoanNotActive)
            &&& active && !positive ==> r == Some(LendingError::PaymentNotPositive)
            &&& positive && full ==> r == Some(LendingError::PaymentCountOverflow)
            &&& positive && !full ==> r is None
        }),
{
}

/// When a payment is recorded makes no difference to whether it is accepted:
/// if the same parties authorised it, it is answered alike at any two times.
pub proof fn payments_are_accepted_at_every_time(
    s: State,
    ctx: Context,
    later: Context,
    caller: Address,
    loan_id: u32,
    amount: i128,
)
    requires
        ctx.authorizers == later.authorizers,
    ensures
        history::refusal(s, ctx, Call::RecordPayment { caller, loan_id, amount })
            == history::refusal(s, later, Call::RecordPayment { caller, loan_id, amount }),
{
}

/// A payment is stored under the next index and taken off what remains due;
/// one that covers it leaves 0 and a repaid loan. The new status is what the
/// call returns. Nothing else about the loan changes, nor about any other.
pub proof fn record_payment_reduces_what_remains(
    s: State,
    ctx: Context,
    caller: Address,
    loan_id: u32,
    amount: i128,
    other: u32,
    index: u32,
)
    requires
        model::record_payment_refusal(s, ctx, caller, loan_id, amount) is None,
    ensures
        ({
            let t = model::record_payment_effect(s, ctx, loan_id, amount);
            let before = s.loans[loan_id];
            let after = t.loans[loan_id];
            let recorded = if s.payment_counts.contains_key(loan_id) {
                s.payment_counts[loan_id] as int
            } else {
                0
            };
            let key = (loan_id, t.payment_counts[loan_id]);
            &&& t.loans.contains_key(loan_id)
            &&& amount < before.remaining_due ==> after.remaining_due == before.remaining_due
                - amount && after.status == before.status
            &&& amount >= before.remaining_due ==> after.remaining_due == 0 && after.status
                == LoanStatus::Repaid
            &&& after == (LoanRecord {
                remaining_due: after.remaining_due,
                status: after.status,
                ..before
            })
            &&& model::paid_loan(before, amount).status == after.status
            &&& t.payment_counts.contains_key(loan_id)
            &&& t.payment_counts[loan_id] == recorded + 1
            &&& t.payments.contains_key(key)
            &&& t.payments[key] == (PaymentRecord { loan_id, amount, paid_at: ctx.timestamp })
            &&& (other, index) != key ==> {
                &&& t.payments.contains_key((other, index)) == s.payments.contains_key(
                    (other, index),
                )
                &&& s.payments.contains_key((other, index)) ==> t.payments[(other, index)]
                    == s.payments[(other, index)]
            }
            &&& other != loan_id ==> {
                &&& t.loans.contains_key(other) == s.loans.contains_key(other)
                &&& s.loans.contains_key(other) ==> t.loans[other] == s.loans[other]
                &&& t.payment_counts.contains_key(other) == s.payment_counts.contains_key(other)
                &&& s.payment_counts.contains_key(other) ==> t.payment_counts[other]
                    == s.payment_counts[other]
            }
            &&& t.events == s.events.push(
                Event::PaymentRecorded {
                    loan_id,
                    amount,
                    remaining_due: after.remaining_due,
                    status: after.status,
                },
            )
            &&& t == (State {
                loans: t.loans,
                payments: t.payments,
                payment_counts: t.payment_counts,
                events: t.events,
                ..s
            })
        }),
{
}

/// However a debt is split into two payments, the same remains due in the end,
/// and the loan is in the same state.
pub proof fn payments_can_be_split(
    s: State,
    first: Context,
    second: Context,
    loan_id: u32,
    a: i128,
    b: i128,
)
    requires
        0 < a < s.loans[loan_id].remaining_due,
        0 < b,
        a + b <= i128::MAX,
    ensures
        ({
            let one = model::record_payment_effect(s, first, loan_id, a);
            let two = model::record_payment_effect(one, second, loan_id, b);
            let whole = model::record_payment_effect(s, second, loan_id, (a + b) as i128);
            two.loans[loan_id] == whole.loans[loan_id]
        }),
{
}

// ---- Rate models ----

/// A switch is accepted exactly when the loan's borrower authorised it, the
/// loan is active, a day has passed since its last switch, and its numbers can
/// be held. `fee` is the two-hundredth part of what remains due, rounded
/// toward zero.
pub proof fn switch_rate_model_refusals(
    s: State,
    ctx: Context,
    borrower: Address,
    loan_id: u32,
    fee: int,
)
    requires
        s.loans[loan_id].remaining_due >= 0 ==> fee * 200 <= s.loans[loan_id].remaining_due < (fee
            + 1) * 200,
        s.loans[loan_id].remaining_due < 0 ==> (fee - 1) * 200 < s.loans[loan_id].remaining_due
            <= fee * 200,
    ensures
        ({
            let r = model::switch_rate_model_refusal(s, ctx, borrower, loan_id);
            let loan = s.loans[loan_id];
            let auth = ctx.authorizers.contains(borrower);
            let found = auth && s.loans.contains_key(loan_id);
            let own = found && loan.borrower == borrower;
            let active = own && loan.status is Active;
            let rested = active && !(s.rate_switch_cooldowns.contains_key(loan_id) && ctx.timestamp
                - s.rate_switch_cooldowns[loan_id] < 86_400);
            let priced = rested && i128::MIN <= loan.remaining_due * 50 <= i128::MAX;
            let added = priced && i128::MIN <= loan.total_due + fee <= i128::MAX;
            &&& !auth ==> r == Some(LendingError::MissingAuthorisation)
            &&& auth && !found ==> r == Some(LendingError::LoanNotFound)
            &&& found && !own ==> r == Some(LendingError::CallerNotBorrower)
            &&& own && !active ==> r == Some(LendingError::SwitchNotActive)
            &&& active && !rested ==> r == Some(LendingError::SwitchCooldown)
            &&& rested && !priced ==> r == Some(LendingError::SwitchFeeOverflow)
            &&& priced && !added ==> r == Some(LendingError::SwitchTotalOverflow)
            &&& added ==> r is None
        }),
{
}

/// A switch from either model leads to the other one. What remains due and
/// what is due in total both grow by the two-hundredth part of what remained
/// due, rounded toward zero, which is what the event tells. Nothing else about
/// the loan changes but the time of the change, nor about any other loan.
pub proof fn switch_rate_model_charges_half_a_percent(
    s: State,
    ctx: Context,
    borrower: Address,
    loan_id: u32,
    other: u32,
)
    requires
        model::switch_rate_model_refusal(s, ctx, borrower, loan_id) is None,
    ensures
        ({
            let t = model::switch_rate_model_effect(s, ctx, loan_id);
            let before = s.loans[loan_id];
            let after = t.loans[loan_id];
            let grown = after.remaining_due - before.remaining_due;
            &&& t.loans.contains_key(loan_id)
            &&& before.remaining_due >= 0 ==> grown * 200 <= before.remaining_due < (grown + 1)
                * 200
            &&& before.remaining_due < 0 ==> (grown - 1) * 200 < before.remaining_due <= grown
                * 200
            &&& after.total_due - before.total_due == grown
            &&& before.rate_model is Fixed ==> after.rate_model is Floating
            &&& before.rate_model is Floating ==> after.rate_model is Fixed
            &&& after == (LoanRecord {
                remaining_due: after.remaining_due,
                total_due: after.total_due,
                rate_model: after.rate_model,
                last_rate_update: ctx.timestamp,
                ..before
            })
            &&& t.rate_switch_cooldowns.contains_key(loan_id)
            &&& t.rate_switch_cooldowns[loan_id] == ctx.timestamp
            &&& other != loan_id ==> {
                &&& t.loans.contains_key(other) == s.loans.contains_key(other)
                &&& s.loans.contains_key(other) ==> t.loans[other] == s.loans[other]
                &&& t.rate_switch_cooldowns.contains_key(other)
                    == s.rate_switch_cooldowns.contains_key(other)
                &&& s.rate_switch_cooldowns.contains_key(other) ==> t.rate_switch_cooldowns[other]
                    == s.rate_switch_cooldowns[other]
            }
            &&& t.events.len() == s.events.len() + 1
            &&& t.events.drop_last() == s.events
            &&& t.events.last() matches Event::RateModelSwitched { loan_id: id, rate_model, fee }
                && id == loan_id && rate_model == after.rate_model && fee == grown
            &&& t == (State {
                loans: t.loans,
                rate_switch_cooldowns: t.rate_switch_cooldowns,
                events: t.events,
                ..s
            })
        }),
{
}

/// A rate update is accepted exactly when the admin authorised it, the loan is
/// active at a floating rate, and its numbers can be held. `whole` are the
/// whole days up to the deadline, none once it has passed, and `days` those
/// that a `u32` counts of them. `interest` is amount x new rate x days /
/// 3 650 000, rounded toward zero, and 0 where nothing remains due.
pub proof fn update_floating_rate_refusals(
    s: State,
    ctx: Context,
    caller: Address,
    loan_id: u32,
    new_rate_bps: u32,
    whole: int,
    days: int,
    interest: int,
)
    requires
        s.loans[loan_id].due_at <= ctx.timestamp ==> whole == 0,
        s.loans[loan_id].due_at > ctx.timestamp ==> whole * 86_400 <= s.loans[loan_id].due_at
            - ctx.timestamp < (whole + 1) * 86_400,
        days == whole % 0x1_0000_0000,
        s.loans[loan_id].remaining_due <= 0 ==> interest == 0,
        s.loans[loan_id].remaining_due > 0 && s.loans[loan_id].amount * new_rate_bps * days >= 0
            ==> interest * 3_650_000 <= s.loans[loan_id].amount * new_rate_bps * days < (interest
            + 1) * 3_650_000,
        s.loans[loan_id].remaining_due > 0 && s.loans[loan_id].amount * new_rate_bps * days < 0
            ==> (interest - 1) * 3_650_000 < s.loans[loan_id].amount * new_rate_bps * days
            <= interest * 3_650_000,
    ensures
        ({
            let r = model::update_floating_rate_refusal(s, ctx, caller, loan_id, new_rate_bps);
            let loan = s.loans[loan_id];
            let paid = loan.total_due - loan.remaining_due;
            let yearly = loan.amount * new_rate_bps;
            let auth = ctx.authorizers.contains(caller);
            let admin = auth && s.admin == Some(caller);
            let found = admin && s.loans.contains_key(loan_id);
            let floating = found && loan.rate_model is Floating;
            let active = floating && loan.status is Active;
            let known = active && i128::MIN <= paid <= i128::MAX;
            let rated = known && (loan.remaining_due > 0 ==> i128::MIN <= yearly <= i128::MAX);
            let priced = rated && (loan.remaining_due > 0 ==> i128::MIN <= yearly * days
                <= i128::MAX);
            let summed = priced && i128::MIN <= loan.amount + interest <= i128::MAX;
            let left = summed && i128::MIN <= loan.amount + interest - paid <= i128::MAX;
            &&& !auth ==> r == Some(LendingError::MissingAuthorisation)
            &&& auth && s.admin is None ==> r == Some(LendingError::NotInitialised)
            &&& auth && s.admin is Some && !admin ==> r == Some(LendingError::CallerNotAdmin)
            &&& admin && !found ==> r == Some(LendingError::LoanNotFound)
            &&& found && !floating ==> r == Some(LendingError::RateNotFloating)
            &&& floating && !active ==> r == Some(LendingError::RateUpdateNotActive)
            &&& active && !known ==> r == Some(LendingError::PaidAmountOverflow)
            &&& known && !rated ==> r == Some(LendingError::InterestRateOverflow)
            &&& rated && !priced ==> r == Some(LendingError::InterestDaysOverflow)
            &&& priced && !summed ==> r == Some(LendingError::RecomputedTotalOverflow)
            &&& summed && !left ==> r == Some(LendingError::RemainingDueUnderflow)
            &&& left ==> r is None
        }),
{
    let left = model::days_left(s.loans[loan_id].due_at, ctx.timestamp);
    assert(left == days);
    let rate = new_rate_bps as int;
    assert(0 * rate == 0 && 0 * rate * days == 0) by (nonlinear_arith);
}

/// After a rate update, what is due in total is the amount and the interest at
/// the new rate over the days that are left, however much was paid, and what
/// remains due is that less what was paid. `whole`, `days` and rounding are as
/// in [`update_floating_rate_refusals`]. Nothing else about the loan changes
/// but its rate and the time of the change, nor about any other loan.
pub proof fn update_floating_rate_recomputes_the_debt(
    s: State,
    ctx: Context,
    caller: Address,
    loan_id: u32,
    new_rate_bps: u32,
    whole: int,
    days: int,
    other: u32,
)
    requires
        model::update_floating_rate_refusal(s, ctx, caller, loan_id, new_rate_bps) is None,
        s.loans[loan_id].due_at <= ctx.timestamp ==> whole == 0,
        s.loans[loan_id].due_at > ctx.timestamp ==> whole * 86_400 <= s.loans[loan_id].due_at
            - ctx.timestamp < (whole + 1) * 86_400,
        days == whole % 0x1_0000_0000,
    ensures
        ({
            let t = model::update_floating_rate_effect(s, ctx, loan_id, new_rate_bps);
            let before = s.loans[loan_id];
            let after = t.loans[loan_id];
            let interest = after.total_due - before.amount;
            let numerator = before.amount * new_rate_bps * days;
            &&& t.loans.contains_key(loan_id)
            &&& before.remaining_due <= 0 ==> interest == 0
            &&& before.remaining_due > 0 && numerator >= 0 ==> interest * 3_650_000 <= numerator
                < (interest + 1) * 3_650_000
            &&& before.remaining_due > 0 && numerator < 0 ==> (interest - 1) * 3_650_000
                < numerator <= interest * 3_650_000
            &&& after.total_due - after.remaining_due == before.total_due - before.remaining_due
            &&& after == (LoanRecord {
                total_due: after.total_due,
                remaining_due: after.remaining_due,
                interest_rate_bps: new_rate_bps,
                last_rate_update: ctx.timestamp,
                ..before
            })
            &&& other != loan_id ==> {
                &&& t.loans.contains_key(other) == s.loans.contains_key(other)
                &&& s.loans.contains_key(other) ==> t.loans[other] == s.loans[other]
            }
            &&& t.events == s.events.push(
                Event::RateUpdated { loan_id, new_rate_bps, remaining_due: after.remaining_due },
            )
            &&& t == (State { loans: t.loans, events: t.events, ..s })
        }),
{
    let left = model::days_left(s.loans[loan_id].due_at, ctx.timestamp);
    assert(left == days);
    let rate = new_rate_bps as int;
    assert(0 * rate == 0 && 0 * rate * days == 0) by (nonlinear_arith);
}

/// After an accepted rate update of a loan that is not paid off, however much
/// of it was paid, its interest is the floor of
/// amount x new rate x whole days left / 3 650 000, and what remains due is the
/// amount and that interest less the sum of the recorded payments.
pub proof fn rate_updates_charge_the_days_left(
    s: State,
    ctx: Context,
    caller: Address,
    loan_id: u32,
    new_rate_bps: u32,
    days: u32,
)
    requires
        soundness::ledger_sound(s),
        history::accepted(s, ctx, Call::UpdateFloatingRate { caller, loan_id, new_rate_bps }),
        s.loans[loan_id].remaining_due > 0,
        s.loans[loan_id].due_at <= ctx.timestamp ==> days == 0,
        s.loans[loan_id].due_at > ctx.timestamp ==> days * 86_400 <= s.loans[loan_id].due_at
            - ctx.timestamp < (days + 1) * 86_400,
    ensures
        ({
            let t = history::next(
                s,
                ctx,
                Call::UpdateFloatingRate { caller, loan_id, new_rate_bps },
            );
            let loan = t.loans[loan_id];
            &&& loan.amount == s.loans[loan_id].amount
            &&& loan.interest_rate_bps == new_rate_bps
            &&& (loan.total_due - loan.amount) * 3_650_000 <= loan.amount * new_rate_bps * days
                < (loan.total_due - loan.amount + 1) * 3_650_000
            &&& loan.remaining_due == loan.total_due - soundness::total_paid(t, loan_id)
            &&& soundness::total_paid(t, loan_id) == soundness::total_paid(s, loan_id)
        }),
{
    let call = Call::UpdateFloatingRate { caller, loan_id, new_rate_bps };
    let (amount, rate, left) = (
        s.loans[loan_id].amount as int,
        new_rate_bps as int,
        days as int,
    );
    assert(soundness::terms_sound(s, s.loans[loan_id]));
    assert(amount * rate >= 0) by (nonlinear_arith)
        requires
            amount > 0,
            rate >= 0,
    ;
    let yearly = amount * rate;
    assert(yearly * left >= 0) by (nonlinear_arith)
        requires
            yearly >= 0,
            left >= 0,
    ;
    update_floating_rate_recomputes_the_debt(
        s,
        ctx,
        caller,
        loan_id,
        new_rate_bps,
        left,
        left,
        loan_id,
    );
    soundness::ledger_stays_sound(s, ctx, call);
    let t = history::next(s, ctx, call);
    assert(t.payments == s.payments && t.payment_counts == s.payment_counts);
    assert(soundness::balanced(t, t.loans[loan_id]));
}

// ---- Flash loans ----

/// A flash loan is lent exactly when the pool holds the amount and the numbers
/// can be held; it then waits for the transfer. Its fee is the floor of
/// amount x fee in force / 10 000, for every amount, and the balance that is
/// required in the end is the one before and that fee. `fee` is that floor.
pub proof fn flash_loan_terms(
    s: State,
    loan: FlashLoanView,
    balance: i128,
    fee_bps: u32,
    fee: int,
)
    requires
        loan.stage is AwaitingBalance,
        loan.amount > 0,
        s.flash_loan_fee_bps is Some ==> fee_bps == s.flash_loan_fee_bps->0,
        s.flash_loan_fee_bps is None ==> fee_bps == 9,
        fee * 10_000 <= loan.amount * fee_bps < (fee + 1) * 10_000,
    ensures
        ({
            let reply = FlashLoanReply::Balance(balance);
            let r = flash::resume_refusal(s, loan, reply);
            let stage = flash::resumed_stage(s, loan, reply);
            let liquid = balance >= loan.amount;
            let priced = liquid && loan.amount * fee_bps <= i128::MAX;
            let covered = priced && balance + fee <= i128::MAX;
            &&& !liquid ==> r == Some(LendingError::InsufficientLiquidity)
            &&& liquid && !priced ==> r == Some(LendingError::FlashLoanFeeOverflow)
            &&& priced && !covered ==> r == Some(LendingError::RequiredBalanceOverflow)
            &&& covered ==> r is None
            &&& covered ==> stage is AwaitingTransfer && stage->AwaitingTransfer_fee == fee
                && stage->AwaitingTransfer_required_after == balance + fee
            &&& flash::resume_effect(s, loan) == s
            &&& flash::resume_refusal(s, loan, FlashLoanReply::Done) == Some(
                LendingError::UnexpectedReply,
            )
        }),
{
    let (amount, bps) = (loan.amount as int, fee_bps as int);
    assert(amount * bps >= 0) by (nonlinear_arith)
        requires
            amount > 0,
            bps >= 0,
    ;
}

/// The fee that a flash loan is lent at is the floor of
/// amount x fee in force / 10 000, and it is added to the balance to be
/// required in full.
pub proof fn flash_fee_is_the_share_of_the_amount(s: State, loan: FlashLoanView, balance: i128)
    requires
        loan.stage is AwaitingBalance,
        loan.amount > 0,
        flash::resume_refusal(s, loan, FlashLoanReply::Balance(balance)) is None,
    ensures
        ({
            let stage = flash::resumed_stage(s, loan, FlashLoanReply::Balance(balance));
            let fee_bps = if s.flash_loan_fee_bps is Some {
                s.flash_loan_fee_bps->0 as int
            } else {
                9
            };
            let fee = stage->AwaitingTransfer_fee;
            &&& stage is AwaitingTransfer
            &&& fee * 10_000 <= loan.amount * fee_bps < (fee + 1) * 10_000
            &&& stage->AwaitingTransfer_required_after == balance + fee
            &&& balance >= loan.amount
        }),
{
    let fee_bps = s.flash_loan_fee();
    let product = loan.amount * fee_bps;
    flash_loan_terms(s, loan, balance, fee_bps, product / 10_000);
}

/// The transfer and the callback of a flash loan are each acknowledged once,
/// in that order, and leave the terms and the ledger as they were.
pub proof fn flash_loan_terms_are_kept(
    s: State,
    loan: FlashLoanView,
    reply: FlashLoanReply,
    fee: i128,
    required_after: i128,
)
    ensures
        loan.stage == (FlashLoanStage::AwaitingTransfer { fee, required_after }) ==> {
            &&& reply is Done ==> flash::resume_refusal(s, loan, reply) is None
            &&& reply is Done ==> flash::resumed_stage(s, loan, reply) == (
                FlashLoanStage::AwaitingCallback { fee, required_after })
            &&& reply is Balance ==> flash::resume_refusal(s, loan, reply) == Some(
                LendingError::UnexpectedReply,
            )
            &&& flash::resume_effect(s, loan) == s
        },
        loan.stage == (FlashLoanStage::AwaitingCallback { fee, required_after }) ==> {
            &&& reply is Done ==> flash::resume_refusal(s, loan, reply) is None
            &&& reply is Done ==> flash::resumed_stage(s, loan, reply) == (
                FlashLoanStage::AwaitingRepayment { fee, required_after })
            &&& reply is Balance ==> flash::resume_refusal(s, loan, reply) == Some(
                LendingError::UnexpectedReply,
            )
            &&& flash::resume_effect(s, loan) == s
        },
{
}

/// A flash loan settles exactly when the balance after the callback is at
/// least the required one. It is then published, and nothing else changes; a
/// settled loan takes no more replies.
pub proof fn flash_loan_settles_when_repaid(
    s: State,
    loan: FlashLoanView,
    reply: FlashLoanReply,
    balance: i128,
    fee: i128,
    required_after: i128,
)
    ensures
        loan.stage == (FlashLoanStage::AwaitingRepayment { fee, required_after }) ==> {
            let repaid = FlashLoanReply::Balance(balance);
            let t = flash::resume_effect(s, loan);
            &&& balance >= required_after ==> flash::resume_refusal(s, loan, repaid) is None
            &&& balance < required_after ==> flash::resume_refusal(s, loan, repaid) == Some(
                LendingError::FlashLoanNotRepaid,
            )
            &&& flash::resumed_stage(s, loan, repaid) is Settled
            &&& flash::resume_refusal(s, loan, FlashLoanReply::Done) == Some(
                LendingError::UnexpectedReply,
            )
            &&& t.events == s.events.push(
                Event::FlashLoan {
                    receiver: loan.receiver,
                    token: loan.token,
                    amount: loan.amount,
                    fee,
                },
            )
            &&& t == (State { events: t.events, ..s })
        },
        loan.stage is Settled ==> flash::resume_refusal(s, loan, reply) == Some(
            LendingError::UnexpectedReply,
        ),
{
}

// ---- Deadlines, interest and thresholds ----

/// A loan is overdue exactly when it is active past its deadline, and it is
/// overdue by as many days as have passed in full since then.
pub proof fn overdue_loans_are_active_past_their_deadline(loan: LoanRecord, now: u64)
    ensures
        loan.status is Active && now > loan.due_at ==> {
            let days = queries::days_past_due(loan, now);
            &&& queries::overdue(loan, now)
            &&& days * 86_400 <= now - loan.due_at < (days + 1) * 86_400
        },
        !(loan.status is Active && now > loan.due_at) ==> {
            &&& !queries::overdue(loan, now)
            &&& queries::days_past_due(loan, now) == 0
        },
{
}

/// Interest is principal x rate x days / 3 650 000, rounded toward zero, and
/// is refused exactly when a product on the way cannot be held.
pub proof fn interest_is_the_rounded_quotient(principal: i128, rate_bps: u32, days: u32)
    ensures
        ({
            let owed = math::interest(principal as int, rate_bps as int, days as int);
            let r = math::interest_refusal(principal as int, rate_bps as int, days as int);
            let yearly = principal * rate_bps;
            let numerator = principal * rate_bps * days;
            let rated = i128::MIN <= yearly <= i128::MAX;
            let priced = rated && i128::MIN <= numerator <= i128::MAX;
            &&& numerator >= 0 ==> owed * 3_650_000 <= numerator < (owed + 1) * 3_650_000
            &&& numerator < 0 ==> (owed - 1) * 3_650_000 < numerator <= owed * 3_650_000
            &&& !rated ==> r == Some(LendingError::InterestRateOverflow)
            &&& rated && !priced ==> r == Some(LendingError::InterestDaysOverflow)
            &&& priced ==> r is None
        }),
{
}

/// The liquidation threshold is 7500 basis points, and one and a half for each
/// point of the score but at most 1500, less half of the volatility; and never
/// less than 5000 or more than 9000. Halves are rounded down.
pub proof fn threshold_weighs_score_and_volatility(
    score: u32,
    volatility_bps: u32,
    bonus: int,
    penalty: int,
)
    requires
        score >= 1000 ==> bonus == 1500,
        score < 1000 ==> bonus * 2 <= score * 3 < (bonus + 1) * 2,
        penalty * 2 <= volatility_bps < (penalty + 1) * 2,
    ensures
        ({
            let threshold = math::liquidation_threshold(score as int, volatility_bps as int);
            let raw = 7500 + bonus - penalty;
            &&& raw <= 5000 ==> threshold == 5000
            &&& 5000 <= raw <= 9000 ==> threshold == raw
            &&& raw >= 9000 ==> threshold == 9000
        }),
{
}

// ---- Sequences of calls ----

/// In a sequence of calls, every call is refused, and takes effect, as it does
/// on its own.
pub proof fn histories_are_made_of_the_calls(s: State, ctx: Context, call: Call)
    ensures
        match call {
            Call::Initialize { admin } => {
                &&& history::refusal(s, ctx, call) == model::initialize_refusal(s)
                &&& history::effect(s, ctx, call) == model::initialize_effect(s, admin)
            },
            Call::SetMultisigAdmin { admin, multisig } => {
                &&& history::refusal(s, ctx, call) == model::set_multisig_admin_refusal(
                    s,
                    ctx,
                    admin,
                )
                &&& history::effect(s, ctx, call) == model::set_multisig_admin_effect(s, multisig)
            },
            Call::WhitelistAsset { caller, asset } => {
                &&& history::refusal(s, ctx, call) == model::multisig_refusal(s, ctx, caller)
                &&& history::effect(s, ctx, call) == model::whitelist_asset_effect(s, asset)
            },
            Call::SetGovernance { caller, governance } => {
                &&& history::refusal(s, ctx, call) == model::set_governance_refusal(s, ctx, caller)
                &&& history::effect(s, ctx, call) == model::set_governance_effect(s, governance)
            },
            Call::SetPlatformFeeBps { caller, new_fee_bps } => {
                &&& history::refusal(s, ctx, call) == model::set_platform_fee_bps_refusal(
                    s,
                    ctx,
                    caller,
                    new_fee_bps,
                )
                &&& history::effect(s, ctx, call) == model::set_platform_fee_bps_effect(
                    s,
                    new_fee_bps,
                )
            },
            Call::SetFlashLoanFeeBps { caller, new_fee_bps } => {
                &&& history::refusal(s, ctx, call) == model::set_flash_loan_fee_bps_refusal(
                    s,
                    ctx,
                    caller,
                    new_fee_bps,
                )
                &&& history::effect(s, ctx, call) == model::set_flash_loan_fee_bps_effect(
                    s,
                    new_fee_bps,
                )
            },
            Call::CreateLoanRequest { request } => {
                &&& history::refusal(s, ctx, call) == model::create_loan_request_refusal(
                    s,
                    ctx,
                    request,
                )
                &&& history::effect(s, ctx, call) == model::create_loan_request_effect(
                    s,
                    ctx,
                    request,
                )
            },
            Call::ApproveLoan { lender, loan_id, escrow_id } => {
                &&& history::refusal(s, ctx, call) == model::approve_loan_refusal(
                    s,
                    ctx,
                    lender,
                    loan_id,
                )
                &&& history::effect(s, ctx, call) == model::approve_loan_effect(
                    s,
                    ctx,
                    lender,
                    loan_id,
                    escrow_id,
                )
            },
            Call::RevokeApproval { lender, loan_id } => {
                &&& history::refusal(s, ctx, call) == model::revoke_approval_refusal(
                    s,
                    ctx,
                    lender,
                    loan_id,
                )
                &&& history::effect(s, ctx, call) == model::revoke_approval_effect(s, loan_id)
            },
            Call::ActivateLoan { caller, loan_id } => {
                &&& history::refusal(s, ctx, call) == model::activate_loan_refusal(
                    s,
                    ctx,
                    caller,
                    loan_id,
                )
                &&& history::effect(s, ctx, call) == model::activate_loan_effect(s, loan_id)
            },
            Call::RecordPayment { caller, loan_id, amount } => {
                &&& history::refusal(s, ctx, call) == model::record_payment_refusal(
                    s,
                    ctx,
                    caller,
                    loan_id,
                    amount,
                )
                &&& history::effect(s, ctx, call) == model::record_payment_effect(
                    s,
                    ctx,
                    loan_id,
                    amount,
                )
            },
            Call::MarkDefaulted { caller, loan_id } => {
                &&& history::refusal(s, ctx, call) == model::mark_defaulted_refusal(
                    s,
                    ctx,
                    caller,
                    loan_id,
                )
                &&& history::effect(s, ctx, call) == model::mark_defaulted_effect(s, loan_id)
            },
            Call::SwitchRateModel { borrower, loan_id } => {
                &&& history::refusal(s, ctx, call) == model::switch_rate_model_refusal(
                    s,
                    ctx,
                    borrower,
                    loan_id,
                )
                &&& history::effect(s, ctx, call) == model::switch_rate_model_effect(
                    s,
                    ctx,
                    loan_id,
                )
            },
            Call::UpdateFloatingRate { caller, loan_id, new_rate_bps } => {
                &&& history::refusal(s, ctx, call) == model::update_floating_rate_refusal(
                    s,
                    ctx,
                    caller,
                    loan_id,
                    new_rate_bps,
                )
                &&& history::effect(s, ctx, call) == model::update_floating_rate_effect(
                    s,
                    ctx,
                    loan_id,
                    new_rate_bps,
                )
            },
            Call::ResumeFlashLoan { loan, reply } => {
                &&& history::refusal(s, ctx, call) == flash::resume_refusal(s, loan, reply)
                &&& history::effect(s, ctx, call) == flash::resume_effect(s, loan)
            },
        },
        history::accepted(s, ctx, call) <==> history::refusal(s, ctx, call) is None,
        history::accepted(s, ctx, call) ==> history::next(s, ctx, call) == history::effect(
            s,
            ctx,
            call,
        ),
        !history::accepted(s, ctx, call) ==> history::next(s, ctx, call) == s,
{
}

/// Before any call a contract is as deployed, and every further call leads on
/// from the state before it.
pub proof fn histories_go_on_from_where_they_were(
    address: Address,
    calls: Seq<(Context, Call)>,
    ctx: Context,
    call: Call,
)
    ensures
        history::run(address, Seq::empty()) == state::deployed(address),
        history::run(address, calls.push((ctx, call))) == history::next(
            history::run(address, calls),
            ctx,
            call,
        ),
{
    assert(calls.push((ctx, call)).drop_last() =~= calls);
}

/// Nothing was paid for a loan before its first payment, and an accepted
/// payment adds its amount, for its own loan alone.
pub proof fn total_paid_is_the_sum_of_payments(
    s: State,
    ctx: Context,
    caller: Address,
    loan_id: u32,
    amount: i128,
    other: u32,
)
    requires
        history::accepted(s, ctx, Call::RecordPayment { caller, loan_id, amount }),
    ensures
        ({
            let t = history::next(s, ctx, Call::RecordPayment { caller, loan_id, amount });
            &&& !s.payment_counts.contains_key(other) ==> soundness::total_paid(s, other) == 0
            &&& soundness::total_paid(t, loan_id) == soundness::total_paid(s, loan_id) + amount
            &&& other != loan_id ==> soundness::total_paid(t, other) == soundness::total_paid(
                s,
                other,
            )
        }),
{
    soundness::payment_adds_up(s, ctx, loan_id, amount, loan_id);
    soundness::payment_adds_up(s, ctx, loan_id, amount, other);
}

} // verus!
