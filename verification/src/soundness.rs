//! What holds of the ledger after any sequence of calls.
use crate::history;
use crate::history::Call;
use crate::math;
use crate::math::SECONDS_PER_DAY;
use crate::model;
use crate::model::LoanRequest;
use crate::state;
use crate::state::{
    Context, State, MAX_DURATION_DAYS, MAX_FLASH_LOAN_FEE_BPS, MAX_PLATFORM_FEE_BPS,
};
use crate::types::{Address, LoanRecord, LoanStatus, PaymentRecord};
use vstd::prelude::*;

verus! {

/// Roles are handed out in order, fees keep to their ceilings, and every entry
/// of the whitelist is set.
pub open spec fn configuration_sound(s: State) -> bool {
    &&& s.admin is Some <==> s.loan_count is Some
    &&& s.multisig_admin is Some ==> s.admin is Some
    &&& s.governance is Some ==> s.multisig_admin is Some
    &&& s.platform_fee_bps is Some ==> s.governance is Some
    &&& s.flash_loan_fee_bps is Some ==> s.multisig_admin is Some
    &&& s.platform_fee() <= MAX_PLATFORM_FEE_BPS
    &&& s.flash_loan_fee() <= MAX_FLASH_LOAN_FEE_BPS
    &&& forall|asset: Address| #[trigger]
        s.whitelisted_assets.contains_key(asset) ==> s.admin is Some && s.whitelisted_assets[asset]
}

/// Loans are numbered from 1 without gaps.
pub open spec fn numbered(s: State) -> bool {
    &&& forall|id: u32| #[trigger] s.loans.contains_key(id) <==> 1 <= id <= s.count()
    &&& forall|id: u32| #[trigger] s.loans.contains_key(id) ==> s.loans[id].id == id
}

/// The sum of the first `n` payments among those of a loan.
pub open spec fn payments_sum(payments: Map<(u32, u32), PaymentRecord>, loan_id: u32, n: nat) -> int
    decreases n,
{
    if n == 0 {
        0
    } else {
        payments_sum(payments, loan_id, (n - 1) as nat) + payments[(loan_id, n as u32)].amount
    }
}

/// All that was ever paid for a loan.
pub open spec fn total_paid(s: State, loan_id: u32) -> int {
    payments_sum(s.payments, loan_id, s.payment_count(loan_id) as nat)
}

/// The loan was paid out at some time.
pub open spec fn was_active(status: LoanStatus) -> bool {
    status == LoanStatus::Active || status == LoanStatus::Repaid || status == LoanStatus::Defaulted
}

/// Payments are positive, numbered from 1 without gaps, and belong to loans
/// that were paid out.
pub open spec fn payments_sound(s: State) -> bool {
    &&& forall|id: u32, i: u32|
        #[trigger] s.payments.contains_key((id, i)) <==> 1 <= i <= s.payment_count(id)
    &&& forall|id: u32, i: u32| #[trigger]
        s.payments.contains_key((id, i)) ==> s.payments[(id, i)].loan_id == id && s.payments[(
            id,
            i,
        )].amount > 0
    &&& forall|id: u32| #[trigger]
        s.payment_counts.contains_key(id) ==> s.loans.contains_key(id) && was_active(
            s.loans[id].status,
        )
    &&& forall|id: u32| #[trigger]
        s.rate_switch_cooldowns.contains_key(id) ==> s.loans.contains_key(id) && was_active(
            s.loans[id].status,
        )
}

/// Interest that a loan was agreed at.
pub open spec fn agreed_interest(loan: LoanRecord) -> int {
    math::interest(loan.amount as int, loan.base_rate_bps as int, loan.duration_days as int)
}

/// The terms of a loan are within the rules.
pub open spec fn terms_sound(s: State, loan: LoanRecord) -> bool {
    &&& loan.amount > 0
    &&& 1 <= loan.duration_days <= MAX_DURATION_DAYS
    &&& loan.collateral_amount > 0
    &&& s.whitelisted_assets.contains_key(loan.collateral_asset)
    &&& loan.due_at == loan.created_at + loan.duration_days * SECONDS_PER_DAY
    &&& 0 <= loan.platform_fee
    &&& loan.platform_fee * 10 <= agreed_interest(loan)
    &&& loan.status != LoanStatus::Cancelled
    &&& loan.status == LoanStatus::Pending ==> loan.lender == s.address && loan.escrow_id == 0
    &&& !was_active(loan.status) ==> {
        &&& loan.total_due == loan.amount + agreed_interest(loan)
        &&& loan.interest_rate_bps == loan.base_rate_bps
    }
}

/// The books of a loan balance: until it is repaid, what is due in total is
/// what remains due and what was paid, and the latter can be held in an
/// `i128`; a repaid loan is paid in full.
pub open spec fn balanced(s: State, loan: LoanRecord) -> bool {
    if loan.status == LoanStatus::Repaid {
        loan.remaining_due == 0 && total_paid(s, loan.id) >= loan.total_due
    } else {
        &&& loan.total_due == loan.remaining_due + total_paid(s, loan.id)
        &&& 0 <= total_paid(s, loan.id) <= i128::MAX
    }
}

/// Every loan is within the rules, and its books balance.
pub open spec fn loans_sound(s: State) -> bool {
    forall|id: u32| #[trigger]
        s.loans.contains_key(id) ==> terms_sound(s, s.loans[id]) && balanced(s, s.loans[id])
}

/// The list of a borrower holds exactly the borrower's loans, in the order in
/// which they were requested.
pub open spec fn borrower_lists_sound(s: State) -> bool {
    &&& forall|a: Address, i: int|
        0 <= i < state::ids_of(s.borrower_loans, a).len() ==> {
            let id = #[trigger] state::ids_of(s.borrower_loans, a)[i];
            s.loans.contains_key(id) && s.loans[id].borrower == a
        }
    &&& forall|a: Address, i: int, j: int|
        0 <= i < j < state::ids_of(s.borrower_loans, a).len() ==> #[trigger] state::ids_of(
            s.borrower_loans,
            a,
        )[i] < #[trigger] state::ids_of(s.borrower_loans, a)[j]
    &&& forall|id: u32| #[trigger]
        s.loans.contains_key(id) ==> state::ids_of(
            s.borrower_loans,
            s.loans[id].borrower,
        ).contains(id)
}

/// A loan that has a lender is in the list of that lender, and lenders' lists
/// hold nothing but loans.
pub open spec fn lender_lists_sound(s: State) -> bool {
    &&& forall|a: Address, i: int|
        0 <= i < state::ids_of(s.lender_loans, a).len() ==> s.loans.contains_key(
            #[trigger] state::ids_of(s.lender_loans, a)[i],
        )
    &&& forall|id: u32| #[trigger]
        s.loans.contains_key(id) && s.loans[id].status != LoanStatus::Pending ==> state::ids_of(
            s.lender_loans,
            s.loans[id].lender,
        ).contains(id)
}

/// The time of approval is known of every loan that has a lender.
pub open spec fn approvals_sound(s: State) -> bool {
    &&& forall|id: u32| #[trigger]
        s.loans.contains_key(id) && s.loans[id].status != LoanStatus::Pending
            ==> s.approved_at.contains_key(id)
    &&& forall|id: u32| #[trigger] s.approved_at.contains_key(id) ==> s.loans.contains_key(id)
}

/// All of the above.
pub open spec fn ledger_sound(s: State) -> bool {
    &&& configuration_sound(s)
    &&& numbered(s)
    &&& payments_sound(s)
    &&& loans_sound(s)
    &&& borrower_lists_sound(s)
    &&& lender_lists_sound(s)
    &&& approvals_sound(s)
}

/// What a loan was agreed on: no call ever changes it.
pub open spec fn same_terms(a: LoanRecord, b: LoanRecord) -> bool {
    &&& a.id == b.id
    &&& a.borrower == b.borrower
    &&& a.amount == b.amount
    &&& a.duration_days == b.duration_days
    &&& a.created_at == b.created_at
    &&& a.due_at == b.due_at
    &&& a.platform_fee == b.platform_fee
    &&& a.collateral_asset == b.collateral_asset
    &&& a.collateral_amount == b.collateral_amount
    &&& a.base_rate_bps == b.base_rate_bps
}

/// Two states differ in nothing but one loan, its cooldown, the time of its
/// approval, the lenders' lists and the events.
spec fn differ_in_loan(s: State, t: State, id: u32) -> bool {
    &&& s.loans.contains_key(id)
    &&& t == State {
        loans: s.loans.insert(id, t.loans[id]),
        rate_switch_cooldowns: t.rate_switch_cooldowns,
        approved_at: t.approved_at,
        lender_loans: t.lender_loans,
        events: t.events,
        ..s
    }
    &&& t.approved_at == s.approved_at || t.approved_at == s.approved_at.insert(
        id,
        t.approved_at[id],
    )
    &&& t.rate_switch_cooldowns == s.rate_switch_cooldowns || t.rate_switch_cooldowns
        == s.rate_switch_cooldowns.insert(id, t.rate_switch_cooldowns[id])
}

/// A change of one loan that keeps its terms and its books keeps the ledger.
proof fn loan_change_keeps_ledger(s: State, t: State, id: u32)
    requires
        ledger_sound(s),
        differ_in_loan(s, t, id),
        same_terms(s.loans[id], t.loans[id]),
        was_active(s.loans[id].status) || t.rate_switch_cooldowns != s.rate_switch_cooldowns
            ==> was_active(t.loans[id].status),
        terms_sound(t, t.loans[id]),
        balanced(t, t.loans[id]),
        lender_lists_sound(t),
        t.loans[id].status != LoanStatus::Pending && s.loans[id].status == LoanStatus::Pending
            ==> t.approved_at.contains_key(id),
    ensures
        ledger_sound(t),
{
    assert forall|other: u32| #[trigger] t.loans.contains_key(other) implies terms_sound(
        t,
        t.loans[other],
    ) && balanced(t, t.loans[other]) by {
        assert(s.loans.contains_key(other));
    }
    assert(borrower_lists_sound(t)) by {
        assert(t.borrower_loans == s.borrower_loans);
        assert forall|other: u32| #[trigger] t.loans.contains_key(other) implies state::ids_of(
            t.borrower_loans,
            t.loans[other].borrower,
        ).contains(other) by {
            assert(s.loans.contains_key(other));
        }
    }
    assert(numbered(t)) by {
        assert forall|other: u32| #[trigger] t.loans.contains_key(other) <==> 1 <= other
            <= t.count() by {
            assert(s.loans.contains_key(other) <==> 1 <= other <= s.count());
        }
    }
    assert(approvals_sound(t)) by {
        assert forall|other: u32| #[trigger] t.loans.contains_key(other) && t.loans[other].status
            != LoanStatus::Pending implies t.approved_at.contains_key(other) by {
            assert(s.loans.contains_key(other));
        }
        assert forall|other: u32| #[trigger] t.approved_at.contains_key(other) implies
            t.loans.contains_key(other) by {
            assert(other == id || s.approved_at.contains_key(other));
        }
    }
    assert(payments_sound(t)) by {
        assert(t.payments == s.payments);
        assert(t.payment_counts == s.payment_counts);
        assert forall|other: u32| #[trigger] t.payment_counts.contains_key(other) implies
            t.loans.contains_key(other) && was_active(t.loans[other].status) by {
            assert(s.payment_counts.contains_key(other));
        }
        assert forall|other: u32| #[trigger] t.rate_switch_cooldowns.contains_key(other) implies
            t.loans.contains_key(other) && was_active(t.loans[other].status) by {
            if other != id || t.rate_switch_cooldowns == s.rate_switch_cooldowns {
                assert(s.rate_switch_cooldowns.contains_key(other));
            }
        }
    }
}

/// Lenders' lists stay sound when they are not touched, and the loan keeps
/// its lender or loses it.
proof fn lender_lists_stay(s: State, t: State, id: u32)
    requires
        lender_lists_sound(s),
        differ_in_loan(s, t, id),
        t.lender_loans == s.lender_loans,
        t.loans[id].status != LoanStatus::Pending ==> s.loans[id].status != LoanStatus::Pending
            && t.loans[id].lender == s.loans[id].lender,
    ensures
        lender_lists_sound(t),
{
    assert forall|other: u32| #[trigger] t.loans.contains_key(other) && t.loans[other].status
        != LoanStatus::Pending implies state::ids_of(t.lender_loans, t.loans[other].lender).contains(
        other,
    ) by {
        assert(s.loans.contains_key(other));
    }
}

/// Calls that touch no loan keep the ledger.
proof fn configuration_keeps_ledger(s: State, t: State)
    requires
        ledger_sound(s),
        configuration_sound(t),
        s.whitelisted_assets.dom().subset_of(t.whitelisted_assets.dom()),
        s.count() == t.count(),
        t == (State {
            admin: t.admin,
            multisig_admin: t.multisig_admin,
            governance: t.governance,
            platform_fee_bps: t.platform_fee_bps,
            flash_loan_fee_bps: t.flash_loan_fee_bps,
            loan_count: t.loan_count,
            whitelisted_assets: t.whitelisted_assets,
            events: t.events,
            ..s
        }),
    ensures
        ledger_sound(t),
{
    assert forall|id: u32| #[trigger] t.loans.contains_key(id) implies terms_sound(t, t.loans[id])
        && balanced(t, t.loans[id]) by {
        assert(s.loans.contains_key(id));
    }
    assert(t.payments == s.payments && t.payment_counts == s.payment_counts);
    assert(t.borrower_loans == s.borrower_loans && t.lender_loans == s.lender_loans);
}

proof fn approve_keeps_ledger(s: State, ctx: Context, lender: Address, loan_id: u32, escrow_id: u32)
    requires
        ledger_sound(s),
        model::approve_loan_refusal(s, ctx, lender, loan_id) is None,
    ensures
        ledger_sound(model::approve_loan_effect(s, ctx, lender, loan_id, escrow_id)),
{
    let t = model::approve_loan_effect(s, ctx, lender, loan_id, escrow_id);
    assert(t.approved_at[loan_id] == ctx.timestamp);
    assert(terms_sound(s, s.loans[loan_id]) && balanced(s, s.loans[loan_id]));
    let before = state::ids_of(s.lender_loans, lender);
    let after = state::ids_of(t.lender_loans, lender);
    assert(after == before.push(loan_id));
    assert(after.last() == loan_id);
    assert forall|a: Address, i: int| 0 <= i < state::ids_of(t.lender_loans, a).len() implies
        t.loans.contains_key(#[trigger] state::ids_of(t.lender_loans, a)[i]) by {
        if a != lender || i < before.len() {
            assert(state::ids_of(t.lender_loans, a)[i] == state::ids_of(s.lender_loans, a)[i]);
        }
    }
    assert forall|id: u32| #[trigger] t.loans.contains_key(id) && t.loans[id].status
        != LoanStatus::Pending implies state::ids_of(t.lender_loans, t.loans[id].lender).contains(
        id,
    ) by {
        if id != loan_id {
            assert(s.loans.contains_key(id));
            let list = state::ids_of(s.lender_loans, s.loans[id].lender);
            let i = choose|i: int| 0 <= i < list.len() && list[i] == id;
            assert(state::ids_of(t.lender_loans, t.loans[id].lender)[i] == id);
        } else {
            assert(after[before.len() as int] == loan_id);
        }
    }
    loan_change_keeps_ledger(s, t, loan_id);
}

proof fn revoke_keeps_ledger(s: State, ctx: Context, lender: Address, loan_id: u32)
    requires
        ledger_sound(s),
        model::revoke_approval_refusal(s, ctx, lender, loan_id) is None,
    ensures
        ledger_sound(model::revoke_approval_effect(s, loan_id)),
{
    let t = model::revoke_approval_effect(s, loan_id);
    assert(terms_sound(s, s.loans[loan_id]) && balanced(s, s.loans[loan_id]));
    lender_lists_stay(s, t, loan_id);
    loan_change_keeps_ledger(s, t, loan_id);
}

proof fn activate_keeps_ledger(s: State, ctx: Context, caller: Address, loan_id: u32)
    requires
        ledger_sound(s),
        model::activate_loan_refusal(s, ctx, caller, loan_id) is None,
    ensures
        ledger_sound(model::activate_loan_effect(s, loan_id)),
{
    let t = model::activate_loan_effect(s, loan_id);
    assert(terms_sound(s, s.loans[loan_id]) && balanced(s, s.loans[loan_id]));
    lender_lists_stay(s, t, loan_id);
    loan_change_keeps_ledger(s, t, loan_id);
}

proof fn default_keeps_ledger(s: State, ctx: Context, caller: Address, loan_id: u32)
    requires
        ledger_sound(s),
        model::mark_defaulted_refusal(s, ctx, caller, loan_id) is None,
    ensures
        ledger_sound(model::mark_defaulted_effect(s, loan_id)),
{
    let t = model::mark_defaulted_effect(s, loan_id);
    assert(terms_sound(s, s.loans[loan_id]) && balanced(s, s.loans[loan_id]));
    lender_lists_stay(s, t, loan_id);
    loan_change_keeps_ledger(s, t, loan_id);
}

proof fn switch_keeps_ledger(s: State, ctx: Context, borrower: Address, loan_id: u32)
    requires
        ledger_sound(s),
        model::switch_rate_model_refusal(s, ctx, borrower, loan_id) is None,
    ensures
        ledger_sound(model::switch_rate_model_effect(s, ctx, loan_id)),
{
    let t = model::switch_rate_model_effect(s, ctx, loan_id);
    assert(terms_sound(s, s.loans[loan_id]) && balanced(s, s.loans[loan_id]));
    assert(t.rate_switch_cooldowns[loan_id] == ctx.timestamp);
    lender_lists_stay(s, t, loan_id);
    loan_change_keeps_ledger(s, t, loan_id);
}

proof fn update_keeps_ledger(s: State, ctx: Context, caller: Address, loan_id: u32, new_rate_bps: u32)
    requires
        ledger_sound(s),
        model::update_floating_rate_refusal(s, ctx, caller, loan_id, new_rate_bps) is None,
    ensures
        ledger_sound(model::update_floating_rate_effect(s, ctx, loan_id, new_rate_bps)),
{
    let t = model::update_floating_rate_effect(s, ctx, loan_id, new_rate_bps);
    assert(terms_sound(s, s.loans[loan_id]) && balanced(s, s.loans[loan_id]));
    lender_lists_stay(s, t, loan_id);
    loan_change_keeps_ledger(s, t, loan_id);
}

/// A sum of payments depends on those payments alone.
proof fn payments_sum_depends_on_payments(
    a: Map<(u32, u32), PaymentRecord>,
    b: Map<(u32, u32), PaymentRecord>,
    loan_id: u32,
    n: nat,
)
    requires
        n <= u32::MAX,
        forall|i: u32| 1 <= i <= n ==> #[trigger] a[(loan_id, i)] == b[(loan_id, i)],
    ensures
        payments_sum(a, loan_id, n) == payments_sum(b, loan_id, n),
    decreases n,
{
    if n > 0 {
        payments_sum_depends_on_payments(a, b, loan_id, (n - 1) as nat);
        assert(a[(loan_id, n as u32)] == b[(loan_id, n as u32)]);
    }
}

/// A recorded payment adds its amount to what was paid for its loan, and
/// nothing to what was paid for another.
pub proof fn payment_adds_up(s: State, ctx: Context, loan_id: u32, amount: i128, other: u32)
    requires
        s.payment_count(loan_id) < u32::MAX,
    ensures
        total_paid(model::record_payment_effect(s, ctx, loan_id, amount), other) == total_paid(s, other)
            + (if other == loan_id {
            amount as int
        } else {
            0
        }),
{
    let t = model::record_payment_effect(s, ctx, loan_id, amount);
    let n = s.payment_count(other) as nat;
    payments_sum_depends_on_payments(s.payments, t.payments, other, n);
    if other == loan_id {
        assert(t.payment_count(other) == n + 1);
        assert(payments_sum(t.payments, other, n + 1) == payments_sum(t.payments, other, n)
            + t.payments[(other, (n + 1) as u32)].amount);
    }
}

proof fn payment_keeps_ledger(s: State, ctx: Context, caller: Address, loan_id: u32, amount: i128)
    requires
        ledger_sound(s),
        model::record_payment_refusal(s, ctx, caller, loan_id, amount) is None,
    ensures
        ledger_sound(model::record_payment_effect(s, ctx, loan_id, amount)),
{
    let t = model::record_payment_effect(s, ctx, loan_id, amount);
    assert(terms_sound(s, s.loans[loan_id]) && balanced(s, s.loans[loan_id]));
    assert forall|id: u32| #[trigger] t.loans.contains_key(id) implies terms_sound(t, t.loans[id])
        && balanced(t, t.loans[id]) by {
        assert(s.loans.contains_key(id));
        payment_adds_up(s, ctx, loan_id, amount, id);
    }
    assert(numbered(t)) by {
        assert forall|id: u32| #[trigger] t.loans.contains_key(id) <==> 1 <= id <= t.count() by {
            assert(s.loans.contains_key(id) <==> 1 <= id <= s.count());
        }
    }
    assert(payments_sound(t)) by {
        assert forall|id: u32, i: u32| #[trigger] t.payments.contains_key((id, i)) <==> 1 <= i
            <= t.payment_count(id) by {
            assert(s.payments.contains_key((id, i)) <==> 1 <= i <= s.payment_count(id));
        }
        assert forall|id: u32, i: u32| #[trigger] t.payments.contains_key((id, i)) implies
            t.payments[(id, i)].loan_id == id && t.payments[(id, i)].amount > 0 by {
            if (id, i) != (loan_id, t.payment_count(loan_id)) {
                assert(s.payments.contains_key((id, i)));
            }
        }
        assert forall|id: u32| #[trigger] t.payment_counts.contains_key(id) implies
            t.loans.contains_key(id) && was_active(t.loans[id].status) by {
            assert(id == loan_id || s.payment_counts.contains_key(id));
        }
        assert forall|id: u32| #[trigger] t.rate_switch_cooldowns.contains_key(id) implies
            t.loans.contains_key(id) && was_active(t.loans[id].status) by {
            assert(s.rate_switch_cooldowns.contains_key(id));
        }
    }
    assert(borrower_lists_sound(t)) by {
        assert forall|id: u32| #[trigger] t.loans.contains_key(id) implies state::ids_of(
            t.borrower_loans,
            t.loans[id].borrower,
        ).contains(id) by {
            assert(s.loans.contains_key(id));
        }
    }
    assert(lender_lists_sound(t)) by {
        assert forall|id: u32| #[trigger] t.loans.contains_key(id) && t.loans[id].status
            != LoanStatus::Pending implies state::ids_of(
            t.lender_loans,
            t.loans[id].lender,
        ).contains(id) by {
            assert(s.loans.contains_key(id));
        }
    }
}

proof fn create_keeps_ledger(s: State, ctx: Context, request: LoanRequest)
    requires
        ledger_sound(s),
        model::create_loan_request_refusal(s, ctx, request) is None,
    ensures
        ledger_sound(model::create_loan_request_effect(s, ctx, request)),
{
    let t = model::create_loan_request_effect(s, ctx, request);
    let loan = model::new_loan(s, ctx, request);
    let new_id = loan.id;
    assert(!s.loans.contains_key(new_id));
    assert(!s.payment_counts.contains_key(new_id));
    assert(terms_sound(t, loan)) by {
        math::interest_not_negative(
            request.amount as int,
            request.interest_rate_bps as int,
            request.duration_days as int,
        );
        math::bps_share(request.interest(), s.platform_fee() as int, MAX_PLATFORM_FEE_BPS as int);
        assert(request.interest() <= i128::MAX) by {
            assert(math::fits_i128(request.amount + request.interest()));
        }
    }
    assert(balanced(t, loan)) by {
        assert(t.payment_count(new_id) == 0);
    }
    assert(numbered(t)) by {
        assert forall|id: u32| #[trigger] t.loans.contains_key(id) <==> 1 <= id <= t.count() by {
            assert(s.loans.contains_key(id) <==> 1 <= id <= s.count());
        }
        assert forall|id: u32| #[trigger] t.loans.contains_key(id) implies t.loans[id].id == id by {
            assert(id == new_id || s.loans.contains_key(id));
        }
    }
    assert(loans_sound(t)) by {
        assert forall|id: u32| #[trigger] t.loans.contains_key(id) implies terms_sound(
            t,
            t.loans[id],
        ) && balanced(t, t.loans[id]) by {
            if id != new_id {
                assert(s.loans.contains_key(id));
                assert(terms_sound(s, s.loans[id]) && balanced(s, s.loans[id]));
            }
        }
    }
    assert(payments_sound(t)) by {
        assert(t.payments == s.payments);
        assert(t.payment_counts == s.payment_counts);
        assert(t.rate_switch_cooldowns == s.rate_switch_cooldowns);
    }
    let before = state::ids_of(s.borrower_loans, loan.borrower);
    let after = state::ids_of(t.borrower_loans, loan.borrower);
    assert(after == before.push(new_id));
    assert(after[before.len() as int] == new_id);
    assert(borrower_lists_sound(t)) by {
        assert forall|a: Address, i: int|
            0 <= i < state::ids_of(t.borrower_loans, a).len() implies ({
            let id = #[trigger] state::ids_of(t.borrower_loans, a)[i];
            t.loans.contains_key(id) && t.loans[id].borrower == a
        }) by {
            if a != loan.borrower || i < before.len() {
                assert(state::ids_of(t.borrower_loans, a)[i] == state::ids_of(
                    s.borrower_loans,
                    a,
                )[i]);
            }
        }
        assert forall|a: Address, i: int, j: int|
            0 <= i < j < state::ids_of(t.borrower_loans, a).len() implies #[trigger] state::ids_of(
            t.borrower_loans,
            a,
        )[i] < #[trigger] state::ids_of(t.borrower_loans, a)[j] by {
            let old_list = state::ids_of(s.borrower_loans, a);
            assert(state::ids_of(t.borrower_loans, a)[i] == old_list[i]);
            if a != loan.borrower || j < before.len() {
                assert(state::ids_of(t.borrower_loans, a)[j] == old_list[j]);
            } else {
                assert(s.loans.contains_key(old_list[i]));
            }
        }
        assert forall|id: u32| #[trigger] t.loans.contains_key(id) implies state::ids_of(
            t.borrower_loans,
            t.loans[id].borrower,
        ).contains(id) by {
            if id != new_id {
                assert(s.loans.contains_key(id));
                let list = state::ids_of(s.borrower_loans, s.loans[id].borrower);
                let i = choose|i: int| 0 <= i < list.len() && list[i] == id;
                assert(state::ids_of(t.borrower_loans, t.loans[id].borrower)[i] == id);
            }
        }
    }
    assert(lender_lists_sound(t)) by {
        assert(t.lender_loans == s.lender_loans);
        assert forall|id: u32| #[trigger] t.loans.contains_key(id) && t.loans[id].status
            != LoanStatus::Pending implies state::ids_of(
            t.lender_loans,
            t.loans[id].lender,
        ).contains(id) by {
            assert(s.loans.contains_key(id));
        }
    }
}

/// No call breaks the ledger.
pub proof fn ledger_stays_sound(s: State, ctx: Context, call: Call)
    requires
        ledger_sound(s),
    ensures
        ledger_sound(history::next(s, ctx, call)),
{
    if history::accepted(s, ctx, call) {
        let t = history::effect(s, ctx, call);
        match call {
            Call::CreateLoanRequest { request } => {
                create_keeps_ledger(s, ctx, request);
            },
            Call::ApproveLoan { lender, loan_id, escrow_id } => {
                approve_keeps_ledger(s, ctx, lender, loan_id, escrow_id);
            },
            Call::RevokeApproval { lender, loan_id } => {
                revoke_keeps_ledger(s, ctx, lender, loan_id);
            },
            Call::ActivateLoan { caller, loan_id } => {
                activate_keeps_ledger(s, ctx, caller, loan_id);
            },
            Call::RecordPayment { caller, loan_id, amount } => {
                payment_keeps_ledger(s, ctx, caller, loan_id, amount);
            },
            Call::MarkDefaulted { caller, loan_id } => {
                default_keeps_ledger(s, ctx, caller, loan_id);
            },
            Call::SwitchRateModel { borrower, loan_id } => {
                switch_keeps_ledger(s, ctx, borrower, loan_id);
            },
            Call::UpdateFloatingRate { caller, loan_id, new_rate_bps } => {
                update_keeps_ledger(s, ctx, caller, loan_id, new_rate_bps);
            },
            _ => {
                configuration_keeps_ledger(s, t);
            },
        }
    }
}

/// Whatever calls are made of a contract, in whatever order, its ledger is
/// sound after them.
pub proof fn ledger_always_sound(address: Address, calls: Seq<(Context, Call)>)
    ensures
        ledger_sound(history::run(address, calls)),
        history::run(address, calls).address == address,
    decreases calls.len(),
{
    if calls.len() > 0 {
        ledger_always_sound(address, calls.drop_last());
        ledger_stays_sound(
            history::run(address, calls.drop_last()),
            calls.last().0,
            calls.last().1,
        );
    }
}

} // verus!
