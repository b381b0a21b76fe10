//! Laws of the contract: what every call keeps, what one call undoes of
//! another, and what holds over whole sequences of calls.
use crate::errors::LendingError;
use crate::flash;
use crate::flash::{FlashLoanReply, FlashLoanStage, FlashLoanView};
use crate::history;
use crate::history::Call;
use crate::math;
use crate::model;
use crate::model::LoanRequest;
use crate::queries;
use crate::soundness;
use crate::state;
use crate::state::{
    Context, State, MAX_DURATION_DAYS, MAX_FLASH_LOAN_FEE_BPS, MAX_PLATFORM_FEE_BPS,
    RATE_SWITCH_COOLDOWN_SECS, REVOCATION_WINDOW_SECS,
};
use crate::types::{Address, LoanRecord, LoanStatus, PaymentRecord};
use vstd::prelude::*;

verus! {

/// The existing loan that a call is about.
pub open spec fn subject(call: Call) -> Option<u32> {
    match call {
        Call::ApproveLoan { loan_id, .. } => Some(loan_id),
        Call::RevokeApproval { loan_id, .. } => Some(loan_id),
        Call::ActivateLoan { loan_id, .. } => Some(loan_id),
        Call::RecordPayment { loan_id, .. } => Some(loan_id),
        Call::MarkDefaulted { loan_id, .. } => Some(loan_id),
        Call::SwitchRateModel { loan_id, .. } => Some(loan_id),
        Call::UpdateFloatingRate { loan_id, .. } => Some(loan_id),
        _ => None,
    }
}

/// The loan is closed for good.
pub open spec fn closed_for_good(status: LoanStatus) -> bool {
    status == LoanStatus::Repaid || status == LoanStatus::Defaulted
}

/// The ways in which the status of a loan moves.
pub open spec fn lifecycle_step(from: LoanStatus, to: LoanStatus) -> bool {
    ||| from == to
    ||| from == LoanStatus::Pending && to == LoanStatus::Approved
    ||| from == LoanStatus::Approved && to == LoanStatus::Pending
    ||| from == LoanStatus::Approved && to == LoanStatus::Active
    ||| from == LoanStatus::Active && to == LoanStatus::Repaid
    ||| from == LoanStatus::Active && to == LoanStatus::Defaulted
}

/// Two states hold the same of one loan: its record, the number of its
/// payments, its cooldown and the time of its approval.
pub open spec fn agree_on_loan(s: State, u: State, id: u32) -> bool {
    &&& s.loans.contains_key(id) == u.loans.contains_key(id)
    &&& s.loans.contains_key(id) ==> s.loans[id] == u.loans[id]
    &&& s.payment_count(id) == u.payment_count(id)
    &&& s.rate_switch_cooldowns.contains_key(id) == u.rate_switch_cooldowns.contains_key(id)
    &&& s.rate_switch_cooldowns.contains_key(id) ==> s.rate_switch_cooldowns[id]
        == u.rate_switch_cooldowns[id]
    &&& s.approved_at.contains_key(id) == u.approved_at.contains_key(id)
    &&& s.approved_at.contains_key(id) ==> s.approved_at[id] == u.approved_at[id]
}

/// The address that a call changes a loan for: the lender that takes it or
/// steps back from it, the borrower, or the admin.
pub open spec fn party(s: State, call: Call, id: u32) -> Option<Address> {
    match call {
        Call::ApproveLoan { lender, .. } => Some(lender),
        Call::RevokeApproval { .. } => Some(s.loans[id].lender),
        Call::SwitchRateModel { .. } => Some(s.loans[id].borrower),
        _ => s.admin,
    }
}

/// What a call can do under the ledger keys of one loan.
///
/// A call that is about another loan, or about none, leaves them as they are;
/// only a request adds a loan. A call that is about the loan keeps its terms
/// and the lifecycle, leaves a closed loan alone, and changes a record only
/// with the authorisation of the party that has a say.
proof fn loan_under_call(s: State, ctx: Context, call: Call, id: u32)
    requires
        soundness::ledger_sound(s),
    ensures
        ({
            let t = history::next(s, ctx, call);
            let known = s.loans.contains_key(id);
            &&& known && (subject(call) != Some(id) || closed_for_good(s.loans[id].status))
                ==> agree_on_loan(s, t, id)
            &&& known ==> {
                &&& t.loans.contains_key(id)
                &&& soundness::same_terms(s.loans[id], t.loans[id])
                &&& lifecycle_step(s.loans[id].status, t.loans[id].status)
            }
            &&& known && t.loans[id] != s.loans[id] ==> {
                &&& party(s, call, id) is Some
                &&& ctx.authorizers.contains(party(s, call, id)->0)
                &&& call is ApproveLoan ==> s.loans[id].status == LoanStatus::Pending
                    && t.loans[id].lender == call->ApproveLoan_lender
            }
            &&& !known && t.loans.contains_key(id) ==> {
                &&& call is CreateLoanRequest
                &&& ctx.authorizers.contains(t.loans[id].borrower)
                &&& t.loans[id].amount <= call->request.max_loan_amount
                &&& s.whitelisted_assets.contains_key(t.loans[id].collateral_asset)
            }
        }),
{
    let t = history::next(s, ctx, call);
    assert(s.loans.contains_key(id) ==> 1 <= id <= s.count());
    match call {
        Call::CreateLoanRequest { .. } => {},
        Call::ApproveLoan { .. } => {},
        Call::RevokeApproval { .. } => {},
        Call::ActivateLoan { .. } => {},
        Call::RecordPayment { .. } => {},
        Call::MarkDefaulted { .. } => {},
        Call::SwitchRateModel { .. } => {},
        Call::UpdateFloatingRate { .. } => {},
        _ => {
            assert(t.loans == s.loans);
        },
    }
}

/// No call removes a loan, changes what it was agreed on, or moves its status
/// other than along the lifecycle.
pub proof fn loans_follow_their_lifecycle(s: State, ctx: Context, call: Call, id: u32)
    requires
        soundness::ledger_sound(s),
        s.loans.contains_key(id),
    ensures
        history::next(s, ctx, call).loans.contains_key(id),
        soundness::same_terms(s.loans[id], history::next(s, ctx, call).loans[id]),
        lifecycle_step(s.loans[id].status, history::next(s, ctx, call).loans[id].status),
{
    loan_under_call(s, ctx, call, id);
}

/// A loan that was repaid or defaulted is never touched again: neither its
/// record, nor its payments, nor its cooldown, nor the time of its approval.
pub proof fn closed_loans_are_frozen(s: State, ctx: Context, call: Call, id: u32)
    requires
        soundness::ledger_sound(s),
        s.loans.contains_key(id),
        closed_for_good(s.loans[id].status),
    ensures
        agree_on_loan(s, history::next(s, ctx, call), id),
{
    loan_under_call(s, ctx, call, id);
}

/// A call leaves every loan but the one that it is about as it was, with its
/// payments, its cooldown and the time of its approval.
pub proof fn other_loans_are_untouched(s: State, ctx: Context, call: Call, id: u32)
    requires
        soundness::ledger_sound(s),
        s.loans.contains_key(id),
        subject(call) != Some(id),
    ensures
        agree_on_loan(s, history::next(s, ctx, call), id),
{
    loan_under_call(s, ctx, call, id);
}

/// A loan only changes by a call of someone who has a say in it: a lender
/// that takes a pending loan, the lender that steps back from it, the
/// borrower that switches the rate model, or the admin. In every case that
/// address authorised the call.
pub proof fn loans_change_by_their_parties(s: State, ctx: Context, call: Call, id: u32)
    requires
        soundness::ledger_sound(s),
        s.loans.contains_key(id),
        history::next(s, ctx, call).loans[id] != s.loans[id],
    ensures
        subject(call) == Some(id),
        party(s, call, id) is Some,
        ctx.authorizers.contains(party(s, call, id)->0),
        call is ApproveLoan ==> s.loans[id].status == LoanStatus::Pending && history::next(
            s,
            ctx,
            call,
        ).loans[id].lender == call->ApproveLoan_lender,
{
    loan_under_call(s, ctx, call, id);
}

/// A loan only comes into being by a request that its borrower authorised,
/// within the borrower's limit and against a whitelisted asset.
pub proof fn loans_are_requested_by_their_borrower(s: State, ctx: Context, call: Call, id: u32)
    requires
        soundness::ledger_sound(s),
        !s.loans.contains_key(id),
        history::next(s, ctx, call).loans.contains_key(id),
    ensures
        call is CreateLoanRequest,
        ctx.authorizers.contains(history::next(s, ctx, call).loans[id].borrower),
        history::next(s, ctx, call).loans[id].amount <= call->request.max_loan_amount,
        s.whitelisted_assets.contains_key(history::next(s, ctx, call).loans[id].collateral_asset),
{
    loan_under_call(s, ctx, call, id);
}

/// Admin, multisig and governance, once named, are never replaced, and no
/// asset ever leaves the whitelist.
pub proof fn roles_are_permanent(s: State, ctx: Context, call: Call)
    ensures
        s.admin is Some ==> history::next(s, ctx, call).admin == s.admin,
        s.multisig_admin is Some ==> history::next(s, ctx, call).multisig_admin == s.multisig_admin,
        s.governance is Some ==> history::next(s, ctx, call).governance == s.governance,
        s.whitelisted_assets.dom().subset_of(
            history::next(s, ctx, call).whitelisted_assets.dom(),
        ),
        history::next(s, ctx, call).address == s.address,
{
}

/// The platform fee only changes by a call that the governance contract
/// authorised, and never beyond its ceiling.
pub proof fn only_governance_changes_the_platform_fee(s: State, ctx: Context, call: Call)
    requires
        history::next(s, ctx, call).platform_fee_bps != s.platform_fee_bps,
    ensures
        call is SetPlatformFeeBps,
        s.governance is Some,
        ctx.authorizers.contains(s.governance->0),
        history::next(s, ctx, call).platform_fee() <= MAX_PLATFORM_FEE_BPS,
{
}

/// The flash-loan fee, the whitelist and the governance link only change by a
/// call that the multisig contract authorised. The one exception is the asset
/// that `initialize` whitelists.
pub proof fn only_multisig_changes_the_configuration(s: State, ctx: Context, call: Call)
    requires
        ({
            let t = history::next(s, ctx, call);
            ||| t.flash_loan_fee_bps != s.flash_loan_fee_bps
            ||| t.governance != s.governance
            ||| t.whitelisted_assets != s.whitelisted_assets && !(call is Initialize)
        }),
    ensures
        s.multisig_admin is Some,
        ctx.authorizers.contains(s.multisig_admin->0),
        history::next(s, ctx, call).flash_loan_fee_bps != s.flash_loan_fee_bps ==> history::next(
            s,
            ctx,
            call,
        ).flash_loan_fee() <= MAX_FLASH_LOAN_FEE_BPS,
{
}

/// A caller other than the multisig contract, the admin among them, is
/// refused what is reserved to the multisig contract.
pub proof fn admin_has_no_multisig_powers(
    s: State,
    ctx: Context,
    caller: Address,
    asset: Address,
    governance: Address,
    new_fee_bps: u32,
)
    requires
        s.multisig_admin != Some(caller),
    ensures
        !history::accepted(s, ctx, Call::WhitelistAsset { caller, asset }),
        !history::accepted(s, ctx, Call::SetGovernance { caller, governance }),
        !history::accepted(s, ctx, Call::SetFlashLoanFeeBps { caller, new_fee_bps }),
{
}

/// Events are only ever appended, at most one by a call.
pub proof fn events_are_appended(s: State, ctx: Context, call: Call)
    ensures
        history::next(s, ctx, call).events == s.events || history::next(s, ctx, call).events
            == s.events.push(history::next(s, ctx, call).events.last()),
{
    let t = history::next(s, ctx, call);
    assert(forall|e: crate::types::Event| s.events.push(e).last() == e);
    match call {
        Call::CreateLoanRequest { .. } => {},
        Call::ApproveLoan { .. } => {},
        Call::RevokeApproval { .. } => {},
        Call::ActivateLoan { .. } => {},
        Call::RecordPayment { .. } => {},
        Call::MarkDefaulted { .. } => {},
        Call::SwitchRateModel { .. } => {},
        Call::UpdateFloatingRate { .. } => {},
        Call::ResumeFlashLoan { .. } => {},
        _ => {
            assert(t.events == s.events);
        },
    }
}

/// Two states hold the same under the ledger keys that a call uses.
pub open spec fn agree_on_entries(s: State, u: State, call: Call) -> bool {
    &&& s.address == u.address
    &&& s.admin == u.admin
    &&& s.multisig_admin == u.multisig_admin
    &&& s.governance == u.governance
    &&& s.platform_fee_bps == u.platform_fee_bps
    &&& s.flash_loan_fee_bps == u.flash_loan_fee_bps
    &&& s.loan_count == u.loan_count
    &&& subject(call) is Some ==> agree_on_loan(s, u, subject(call)->0)
    &&& match call {
        Call::CreateLoanRequest { request } => {
            &&& s.whitelisted_assets.contains_key(request.collateral_asset)
                == u.whitelisted_assets.contains_key(request.collateral_asset)
            &&& state::ids_of(s.borrower_loans, request.borrower) == state::ids_of(
                u.borrower_loans,
                request.borrower,
            )
        },
        Call::ApproveLoan { lender, .. } => state::ids_of(s.lender_loans, lender) == state::ids_of(
            u.lender_loans,
            lender,
        ),
        _ => true,
    }
}

/// A call depends on nothing but the configuration and the ledger keys that it
/// uses: on two ledgers that hold the same under these it is refused alike,
/// and leaves them holding the same, the new loan, the new payment and the new
/// event among it.
pub proof fn calls_depend_on_their_entries(s: State, u: State, ctx: Context, call: Call)
    requires
        agree_on_entries(s, u, call),
    ensures
        history::refusal(s, ctx, call) == history::refusal(u, ctx, call),
        ({
            let t = history::next(s, ctx, call);
            let v = history::next(u, ctx, call);
            &&& agree_on_entries(t, v, call)
            &&& history::accepted(s, ctx, call) ==> match call {
                Call::CreateLoanRequest { .. } => {
                    &&& t.loans[t.count()] == v.loans[t.count()]
                    &&& t.events.last() == v.events.last()
                },
                Call::RecordPayment { loan_id, .. } => {
                    let index = t.payment_count(loan_id);
                    &&& t.payments[(loan_id, index)] == v.payments[(loan_id, index)]
                    &&& t.events.last() == v.events.last()
                },
                Call::WhitelistAsset { asset, .. } => {
                    &&& t.whitelisted_assets.contains_pair(asset, true)
                    &&& v.whitelisted_assets.contains_pair(asset, true)
                },
                Call::Initialize { admin } => {
                    &&& t.whitelisted_assets.contains_pair(admin, true)
                    &&& v.whitelisted_assets.contains_pair(admin, true)
                },
                _ => subject(call) is Some ==> t.events.last() == v.events.last(),
            }
        }),
{
    match call {
        Call::CreateLoanRequest { .. } => {},
        Call::ApproveLoan { .. } => {},
        Call::RevokeApproval { .. } => {},
        Call::ActivateLoan { .. } => {},
        Call::RecordPayment { .. } => {},
        Call::MarkDefaulted { .. } => {},
        Call::SwitchRateModel { .. } => {},
        Call::UpdateFloatingRate { .. } => {},
        _ => {},
    }
}

// ---- What one call does to another ----

/// Revoking an approval within the window undoes it: all loans are as they
/// were before.
pub proof fn revoke_undoes_approve(
    s: State,
    approval: Context,
    revocation: Context,
    lender: Address,
    loan_id: u32,
    escrow_id: u32,
)
    requires
        soundness::ledger_sound(s),
        history::accepted(s, approval, Call::ApproveLoan { lender, loan_id, escrow_id }),
        revocation.authorizers.contains(lender),
        revocation.timestamp <= approval.timestamp + REVOCATION_WINDOW_SECS,
    ensures
        ({
            let t = history::next(s, approval, Call::ApproveLoan { lender, loan_id, escrow_id });
            &&& history::accepted(t, revocation, Call::RevokeApproval { lender, loan_id })
            &&& history::next(t, revocation, Call::RevokeApproval { lender, loan_id }).loans
                == s.loans
        }),
{
    let t = model::approve_loan_effect(s, approval, lender, loan_id, escrow_id);
    let u = model::revoke_approval_effect(t, loan_id);
    assert(soundness::terms_sound(s, s.loans[loan_id]));
    assert(u.loans[loan_id] == s.loans[loan_id]);
    assert(u.loans =~= s.loans);
}

/// A loan that was requested can be read back under the id that was
/// returned, which is the new number of loans.
pub proof fn requested_loan_reads_back(s: State, ctx: Context, request: LoanRequest)
    requires
        history::accepted(s, ctx, Call::CreateLoanRequest { request }),
    ensures
        ({
            let t = history::next(s, ctx, Call::CreateLoanRequest { request });
            let id = model::next_loan_id(s);
            &&& id == s.count() + 1
            &&& t.count() == id
            &&& t.loans.contains_key(id)
            &&& t.loans[id] == model::new_loan(s, ctx, request)
            &&& state::ids_of(t.borrower_loans, request.borrower).last() == id
        }),
{
}

/// What is due on a new loan is its principal and its interest, which is not
/// negative, and nothing of it is paid yet.
pub proof fn new_loan_owes_principal_and_interest(s: State, ctx: Context, request: LoanRequest)
    requires
        history::accepted(s, ctx, Call::CreateLoanRequest { request }),
    ensures
        ({
            let loan = model::new_loan(s, ctx, request);
            &&& request.interest() >= 0
            &&& loan.total_due == request.amount + request.interest()
            &&& loan.remaining_due == loan.total_due
            &&& loan.total_due >= loan.amount > 0
        }),
{
    math::interest_not_negative(
        request.amount as int,
        request.interest_rate_bps as int,
        request.duration_days as int,
    );
}

/// A recorded payment can be read back under the new number of payments of
/// the loan.
pub proof fn recorded_payment_reads_back(
    s: State,
    ctx: Context,
    caller: Address,
    loan_id: u32,
    amount: i128,
)
    requires
        history::accepted(s, ctx, Call::RecordPayment { caller, loan_id, amount }),
    ensures
        ({
            let t = history::next(s, ctx, Call::RecordPayment { caller, loan_id, amount });
            let index = t.payment_count(loan_id);
            &&& index == s.payment_count(loan_id) + 1
            &&& t.payments.contains_key((loan_id, index))
            &&& t.payments[(loan_id, index)] == (PaymentRecord {
                loan_id,
                amount,
                paid_at: ctx.timestamp,
            })
        }),
{
}

/// A payment that was recorded is never changed or removed.
pub proof fn payments_are_permanent(s: State, ctx: Context, call: Call, loan_id: u32, index: u32)
    requires
        soundness::ledger_sound(s),
        s.payments.contains_key((loan_id, index)),
    ensures
        history::next(s, ctx, call).payments.contains_key((loan_id, index)),
        history::next(s, ctx, call).payments[(loan_id, index)] == s.payments[(loan_id, index)],
{
    let t = history::next(s, ctx, call);
    assert(1 <= index <= s.payment_count(loan_id));
    match call {
        Call::RecordPayment { .. } => {},
        _ => {
            assert(t.payments == s.payments);
        },
    }
}

/// A payment closes the loan exactly when all payments together cover what is
/// due, and otherwise lowers what remains by its amount.
pub proof fn payment_closes_when_covered(
    s: State,
    ctx: Context,
    caller: Address,
    loan_id: u32,
    amount: i128,
)
    requires
        soundness::ledger_sound(s),
        history::accepted(s, ctx, Call::RecordPayment { caller, loan_id, amount }),
    ensures
        ({
            let t = history::next(s, ctx, Call::RecordPayment { caller, loan_id, amount });
            let paid = soundness::total_paid(t, loan_id);
            &&& paid == soundness::total_paid(s, loan_id) + amount
            &&& t.loans[loan_id].status == LoanStatus::Repaid <==> paid >= s.loans[loan_id].total_due
            &&& t.loans[loan_id].status == LoanStatus::Repaid ==> t.loans[loan_id].remaining_due == 0
            &&& t.loans[loan_id].status != LoanStatus::Repaid ==> t.loans[loan_id].remaining_due
                == s.loans[loan_id].remaining_due - amount
        }),
{
    assert(soundness::balanced(s, s.loans[loan_id]));
    soundness::payment_adds_up(s, ctx, loan_id, amount, loan_id);
}

/// Only a recorded payment changes what was paid for a loan.
pub proof fn only_payments_pay(s: State, ctx: Context, call: Call, id: u32)
    requires
        !(call is RecordPayment),
    ensures
        soundness::total_paid(history::next(s, ctx, call), id) == soundness::total_paid(s, id),
{
    let t = history::next(s, ctx, call);
    assert(t.payments == s.payments && t.payment_counts == s.payment_counts);
}

/// Switching the rate model, and changing the rate, leave what was paid so
/// far as it was.
pub proof fn rate_changes_keep_what_was_paid(s: State, ctx: Context, call: Call, loan_id: u32)
    requires
        history::accepted(s, ctx, call),
        subject(call) == Some(loan_id),
        call is SwitchRateModel || call is UpdateFloatingRate,
    ensures
        model::paid_so_far(history::next(s, ctx, call).loans[loan_id]) == model::paid_so_far(
            s.loans[loan_id],
        ),
{
}

/// In a sound ledger what was paid so far can be held in an `i128`: no rate
/// update is refused for its sake.
pub proof fn paid_amount_never_overflows(
    s: State,
    ctx: Context,
    caller: Address,
    loan_id: u32,
    new_rate_bps: u32,
)
    requires
        soundness::ledger_sound(s),
    ensures
        history::refusal(s, ctx, Call::UpdateFloatingRate { caller, loan_id, new_rate_bps }) != Some(
            LendingError::PaidAmountOverflow,
        ),
{
    if s.loans.contains_key(loan_id) {
        assert(soundness::balanced(s, s.loans[loan_id]));
    }
}

/// In a sound ledger no request is refused because its platform fee is too
/// large for the arithmetic.
pub proof fn platform_fee_never_overflows(s: State, ctx: Context, request: LoanRequest)
    requires
        soundness::ledger_sound(s),
    ensures
        history::refusal(s, ctx, Call::CreateLoanRequest { request }) != Some(
            LendingError::PlatformFeeOverflow,
        ),
{
    let (amount, rate, days) = (
        request.amount as int,
        request.interest_rate_bps as int,
        request.duration_days as int,
    );
    if amount > 0 && math::interest_refusal(amount, rate, days) is None {
        math::interest_not_negative(amount, rate, days);
        let owed = request.interest();
        let fee = s.platform_fee() as int;
        assert(0 <= owed * fee <= owed * 1000) by (nonlinear_arith)
            requires
                owed >= 0,
                0 <= fee <= 1000,
        ;
    }
}

/// Once the fee of a switch is computed, it can always be added to what
/// remains due.
pub proof fn switch_fee_always_fits_what_remains(
    s: State,
    ctx: Context,
    borrower: Address,
    loan_id: u32,
)
    ensures
        history::refusal(s, ctx, Call::SwitchRateModel { borrower, loan_id }) != Some(
            LendingError::SwitchRemainingOverflow,
        ),
{
}

/// The other model of the other model is the model: two switches bring a loan
/// back to the rate model that it had.
pub proof fn two_switches_restore_the_model(s: State, first: Context, second: Context, loan_id: u32)
    ensures
        model::switch_rate_model_effect(
            model::switch_rate_model_effect(s, first, loan_id),
            second,
            loan_id,
        ).loans[loan_id].rate_model == s.loans[loan_id].rate_model,
{
}

/// No call lowers the time of the last switch of a loan.
proof fn cooldown_never_moves_back(s: State, ctx: Context, call: Call, id: u32)
    requires
        s.rate_switch_cooldowns.contains_key(id),
    ensures
        history::next(s, ctx, call).rate_switch_cooldowns.contains_key(id),
        history::next(s, ctx, call).rate_switch_cooldowns[id] >= s.rate_switch_cooldowns[id],
{
    let t = history::next(s, ctx, call);
    match call {
        Call::SwitchRateModel { .. } => {},
        _ => {
            assert(t.rate_switch_cooldowns == s.rate_switch_cooldowns);
        },
    }
}

/// After an accepted switch, the time of the last switch is never before it.
proof fn cooldown_after_switch(address: Address, calls: Seq<(Context, Call)>, i: int, n: int, loan_id: u32)
    requires
        0 <= i < n <= calls.len(),
        calls[i].1 is SwitchRateModel,
        subject(calls[i].1) == Some(loan_id),
        history::accepted(history::run(address, calls.take(i)), calls[i].0, calls[i].1),
    ensures
        history::run(address, calls.take(n)).rate_switch_cooldowns.contains_key(loan_id),
        history::run(address, calls.take(n)).rate_switch_cooldowns[loan_id] >= calls[i].0.timestamp,
    decreases n,
{
    assert(calls.take(n).drop_last() =~= calls.take(n - 1));
    assert(calls.take(n).last() == calls[n - 1]);
    if i < n - 1 {
        cooldown_after_switch(address, calls, i, n - 1, loan_id);
        cooldown_never_moves_back(
            history::run(address, calls.take(n - 1)),
            calls[n - 1].0,
            calls[n - 1].1,
            loan_id,
        );
    }
}

/// Between any two accepted switches of one loan there are 24 hours, whatever
/// else is called in between.
pub proof fn switches_are_a_day_apart(
    address: Address,
    calls: Seq<(Context, Call)>,
    i: int,
    j: int,
    loan_id: u32,
)
    requires
        0 <= i < j < calls.len(),
        calls[i].1 is SwitchRateModel,
        calls[j].1 is SwitchRateModel,
        subject(calls[i].1) == Some(loan_id),
        subject(calls[j].1) == Some(loan_id),
        history::accepted(history::run(address, calls.take(i)), calls[i].0, calls[i].1),
        history::accepted(history::run(address, calls.take(j)), calls[j].0, calls[j].1),
    ensures
        calls[j].0.timestamp >= calls[i].0.timestamp + RATE_SWITCH_COOLDOWN_SECS,
{
    cooldown_after_switch(address, calls, i, j, loan_id);
}

/// Once a loan was approved, and until it is approved again, the time of its
/// approval stands.
proof fn approval_time_stands(address: Address, calls: Seq<(Context, Call)>, i: int, n: int, loan_id: u32)
    requires
        0 <= i < n <= calls.len(),
        approves(address, calls, i, loan_id),
        forall|k: int| i < k < n ==> !#[trigger] approves(address, calls, k, loan_id),
    ensures
        history::run(address, calls.take(n)).approved_at.contains_key(loan_id),
        history::run(address, calls.take(n)).approved_at[loan_id] == calls[i].0.timestamp,
    decreases n,
{
    assert(calls.take(n).drop_last() =~= calls.take(n - 1));
    assert(calls.take(n).last() == calls[n - 1]);
    if i < n - 1 {
        approval_time_stands(address, calls, i, n - 1, loan_id);
        assert(!approves(address, calls, n - 1, loan_id));
        let s = history::run(address, calls.take(n - 1));
        let t = history::next(s, calls[n - 1].0, calls[n - 1].1);
        match calls[n - 1].1 {
            Call::ApproveLoan { .. } => {},
            _ => {
                assert(t.approved_at == s.approved_at);
            },
        }
    }
}

/// In a sequence of calls, this one approves the loan and is accepted.
pub open spec fn approves(address: Address, calls: Seq<(Context, Call)>, i: int, loan_id: u32) -> bool {
    &&& calls[i].1 is ApproveLoan
    &&& subject(calls[i].1) == Some(loan_id)
    &&& history::accepted(history::run(address, calls.take(i)), calls[i].0, calls[i].1)
}

/// An accepted revocation is never more than an hour after the approval that
/// it undoes, the last one before it, whatever else is called in between.
pub proof fn revocations_are_within_the_hour(
    address: Address,
    calls: Seq<(Context, Call)>,
    i: int,
    j: int,
    loan_id: u32,
)
    requires
        0 <= i < j < calls.len(),
        approves(address, calls, i, loan_id),
        forall|k: int| i < k < j ==> !#[trigger] approves(address, calls, k, loan_id),
        calls[j].1 is RevokeApproval,
        subject(calls[j].1) == Some(loan_id),
        history::accepted(history::run(address, calls.take(j)), calls[j].0, calls[j].1),
    ensures
        calls[j].0.timestamp <= calls[i].0.timestamp + REVOCATION_WINDOW_SECS,
{
    approval_time_stands(address, calls, i, j, loan_id);
}

/// In a sound ledger every revocation is held to the window: the time of
/// approval is known, and a revocation later than an hour after it is refused
/// and leaves the loan approved.
pub proof fn late_revocations_are_refused(s: State, ctx: Context, lender: Address, loan_id: u32)
    requires
        soundness::ledger_sound(s),
        s.loans.contains_key(loan_id),
        s.loans[loan_id].status == LoanStatus::Approved,
    ensures
        s.approved_at.contains_key(loan_id),
        ctx.timestamp > s.approved_at[loan_id] + REVOCATION_WINDOW_SECS ==> {
            &&& !history::accepted(s, ctx, Call::RevokeApproval { lender, loan_id })
            &&& history::next(s, ctx, Call::RevokeApproval { lender, loan_id }) == s
        },
{
}

// ---- Books and fees, over all calls ----

/// Whatever calls are made: until a loan is repaid, what is due in total is
/// what remains due and what was paid; and a loan that is repaid was paid in
/// full.
pub proof fn books_always_balance(address: Address, calls: Seq<(Context, Call)>, id: u32)
    requires
        history::run(address, calls).loans.contains_key(id),
    ensures
        ({
            let s = history::run(address, calls);
            let loan = s.loans[id];
            if loan.status == LoanStatus::Repaid {
                loan.remaining_due == 0 && soundness::total_paid(s, id) >= loan.total_due
            } else {
                loan.total_due == loan.remaining_due + soundness::total_paid(s, id)
            }
        }),
{
    soundness::ledger_always_sound(address, calls);
    assert(soundness::balanced(
        history::run(address, calls),
        history::run(address, calls).loans[id],
    ));
}

/// Whatever calls are made, the platform fee is at most 10 % of interest, the
/// flash-loan fee at most 5 % of the amount, and the platform fee of every
/// loan at most a tenth of the interest that was agreed.
pub proof fn fees_keep_their_ceilings(address: Address, calls: Seq<(Context, Call)>)
    ensures
        ({
            let s = history::run(address, calls);
            &&& s.platform_fee() <= MAX_PLATFORM_FEE_BPS
            &&& s.flash_loan_fee() <= MAX_FLASH_LOAN_FEE_BPS
            &&& forall|id: u32| #[trigger]
                s.loans.contains_key(id) ==> 0 <= s.loans[id].platform_fee && s.loans[id].platform_fee
                    * 10 <= soundness::agreed_interest(s.loans[id])
        }),
{
    soundness::ledger_always_sound(address, calls);
    let s = history::run(address, calls);
    assert forall|id: u32| #[trigger] s.loans.contains_key(id) implies 0
        <= s.loans[id].platform_fee && s.loans[id].platform_fee * 10
        <= soundness::agreed_interest(s.loans[id]) by {
        assert(soundness::terms_sound(s, s.loans[id]));
    }
}

// ---- Flash loans ----

/// A flash loan that settles leaves the pool with at least what it had
/// before and the fee, whatever the ledger was at each step. The fee is the
/// one in force when the loan was made, and the pool had the amount then.
pub proof fn flash_loan_never_leaves_the_pool_short(
    s: State,
    loan: FlashLoanView,
    balance_before: i128,
    s_transfer: State,
    s_callback: State,
    s_repayment: State,
    balance_after: i128,
)
    requires
        loan.stage == FlashLoanStage::AwaitingBalance,
        loan.amount > 0,
        flash::resume_refusal(s, loan, FlashLoanReply::Balance(balance_before)) is None,
        ({
            let stage = flash::resumed_stage(s, loan, FlashLoanReply::Balance(balance_before));
            let sent = FlashLoanView { stage, ..loan };
            let stage = flash::resumed_stage(s_transfer, sent, FlashLoanReply::Done);
            let called = FlashLoanView { stage, ..loan };
            let stage = flash::resumed_stage(s_callback, called, FlashLoanReply::Done);
            let returned = FlashLoanView { stage, ..loan };
            &&& flash::resume_refusal(s_transfer, sent, FlashLoanReply::Done) is None
            &&& flash::resume_refusal(s_callback, called, FlashLoanReply::Done) is None
            &&& flash::resume_refusal(
                s_repayment,
                returned,
                FlashLoanReply::Balance(balance_after),
            ) is None
        }),
    ensures
        balance_before >= loan.amount,
        flash::flash_fee(s, loan.amount) >= 0,
        balance_after >= balance_before + flash::flash_fee(s, loan.amount),
{
    math::bps_share(loan.amount as int, s.flash_loan_fee() as int, s.flash_loan_fee() as int);
    assert(math::fits_i128(balance_before + flash::flash_fee(s, loan.amount)));
}

/// How far a flash loan has come.
pub open spec fn steps_done(stage: FlashLoanStage) -> int {
    match stage {
        FlashLoanStage::AwaitingBalance => 0,
        FlashLoanStage::AwaitingTransfer { .. } => 1,
        FlashLoanStage::AwaitingCallback { .. } => 2,
        FlashLoanStage::AwaitingRepayment { .. } => 3,
        FlashLoanStage::Settled => 4,
    }
}

/// A flash loan goes through its steps in order, one by one, and a settled one
/// goes no further.
pub proof fn flash_loan_steps_in_order(s: State, loan: FlashLoanView, reply: FlashLoanReply)
    ensures
        flash::resume_refusal(s, loan, reply) is None ==> steps_done(
            flash::resumed_stage(s, loan, reply),
        ) == steps_done(loan.stage) + 1,
        loan.stage == FlashLoanStage::Settled ==> flash::resume_refusal(s, loan, reply) is Some,
{
}

/// The fee of a flash loan is never more than 5 % of the amount.
pub proof fn flash_fee_is_bounded(address: Address, calls: Seq<(Context, Call)>, amount: i128)
    requires
        amount > 0,
    ensures
        0 <= flash::flash_fee(history::run(address, calls), amount),
        flash::flash_fee(history::run(address, calls), amount) * 20 <= amount,
{
    let s = history::run(address, calls);
    soundness::ledger_always_sound(address, calls);
    math::bps_share(amount as int, s.flash_loan_fee() as int, MAX_FLASH_LOAN_FEE_BPS as int);
}

// ---- Deadlines ----

/// A loan that has days overdue is overdue, a loan that is overdue by a day
/// or more has days overdue, and the days never go down as time passes.
pub proof fn days_overdue_agree_with_overdue(loan: LoanRecord, now: u64, later: u64)
    requires
        now <= later,
    ensures
        queries::days_past_due(loan, now) > 0 ==> queries::overdue(loan, now),
        queries::overdue(loan, now) && now - loan.due_at >= 86_400 ==> queries::days_past_due(
            loan,
            now,
        ) > 0,
        queries::days_past_due(loan, now) <= queries::days_past_due(loan, later),
{
}

/// From the creation of a loan on, the days that are left of it are the whole
/// days up to its deadline, none past it, and at most a year.
pub proof fn days_left_are_whole_days(s: State, id: u32, now: u64)
    requires
        soundness::ledger_sound(s),
        s.loans.contains_key(id),
        now >= s.loans[id].created_at,
    ensures
        now <= s.loans[id].due_at ==> model::days_left(s.loans[id].due_at, now) == (
        s.loans[id].due_at - now) / 86_400,
        now > s.loans[id].due_at ==> model::days_left(s.loans[id].due_at, now) == 0,
        0 <= model::days_left(s.loans[id].due_at, now) <= MAX_DURATION_DAYS,
{
    assert(soundness::terms_sound(s, s.loans[id]));
}

// ---- Interest and thresholds ----

/// Interest never goes down when principal, rate or days go up, and there is
/// none on nothing, at no rate or over no time.
pub proof fn interest_is_monotone(
    principal: int,
    more_principal: int,
    rate_bps: int,
    more_rate_bps: int,
    days: int,
    more_days: int,
)
    requires
        0 <= principal <= more_principal,
        0 <= rate_bps <= more_rate_bps,
        0 <= days <= more_days,
    ensures
        math::interest(principal, rate_bps, days) <= math::interest(
            more_principal,
            more_rate_bps,
            more_days,
        ),
        math::interest(0, rate_bps, days) == 0,
        math::interest(principal, 0, days) == 0,
        math::interest(principal, rate_bps, 0) == 0,
{
    assert(0 <= principal * rate_bps <= more_principal * more_rate_bps) by (nonlinear_arith)
        requires
            0 <= principal <= more_principal,
            0 <= rate_bps <= more_rate_bps,
    ;
    let a = principal * rate_bps;
    let b = more_principal * more_rate_bps;
    assert(0 <= a * days <= b * more_days) by (nonlinear_arith)
        requires
            0 <= a <= b,
            0 <= days <= more_days,
    ;
    assert(0 * rate_bps * days == 0) by (nonlinear_arith);
    assert(principal * 0 * days == 0) by (nonlinear_arith);
    assert(principal * rate_bps * 0 == 0) by (nonlinear_arith);
}

/// The liquidation threshold is between 50 % and 90 %, goes up with
/// reputation and down with volatility.
pub proof fn threshold_is_bounded_and_monotone(
    score: int,
    more_score: int,
    volatility: int,
    more_volatility: int,
)
    requires
        score <= more_score,
        volatility <= more_volatility,
    ensures
        5000 <= math::liquidation_threshold(score, volatility) <= 9000,
        math::liquidation_threshold(score, more_volatility) <= math::liquidation_threshold(
            more_score,
            volatility,
        ),
{
}

} // verus!
